//! Required connection parameters, their validation, and the pool
//! sizing constants.
//!
//! Five values are required: user, password, host, port and database
//! name. The port must be the decimal text of a 16-bit unsigned
//! integer. A missing value and a malformed port are the two
//! configuration errors; both are fatal to the caller at startup.

use vstd::prelude::*;
use vstd::utf8::is_ascii_chars;
use vstd::utf8::is_ascii_chars_encode_utf8;

verus! {

/// Upper bound on the number of connections the pool may hold.
pub const MAX_CONNECTIONS: u32 = 16;

/// Number of connections the pool keeps open even when idle.
pub const MIN_CONNECTIONS: u32 = 4;

/// Seconds a connection may stay open before it is recycled.
pub const MAX_LIFETIME_SECS: u64 = 20_000;

/// Seconds an unused connection may sit idle before it is closed.
pub const IDLE_TIMEOUT_SECS: u64 = 5_000;

/// The five required connection parameters, in the order they are
/// checked.
#[derive(Clone, Copy, Debug, PartialEq, Eq)]
pub enum ConfigVar {
    User,
    Pass,
    Host,
    Port,
    Name,
}

/// Why a set of configuration values was rejected.
#[derive(Clone, Copy, Debug, PartialEq, Eq)]
pub enum ConfigError {
    /// A required value is absent.
    Missing(ConfigVar),
    /// The port value does not parse as a 16-bit unsigned integer.
    InvalidPort,
}

/// A validated set of connection parameters.
#[derive(Clone, Debug)]
pub struct DbConfig {
    pub user: String,
    pub pass: String,
    pub host: String,
    pub port: u16,
    pub name: String,
}

/// One decimal digit.
pub open spec fn is_decimal_digit(c: char) -> bool {
    '0' <= c && c <= '9'
}

/// Numeric value of one decimal digit.
pub open spec fn digit_value(c: char) -> int {
    c as int - '0' as int
}

/// Every character of the sequence is a decimal digit.
pub open spec fn all_decimal_digits(s: Seq<char>) -> bool {
    forall|i: int| 0 <= i < s.len() ==> is_decimal_digit(#[trigger] s[i])
}

/// Value of a sequence of decimal digits, most significant first.
pub open spec fn decimal_value(s: Seq<char>) -> int
    decreases s.len(),
{
    if s.len() == 0 {
        0
    } else {
        decimal_value(s.drop_last()) * 10 + digit_value(s.last())
    }
}

/// The digit portion of a port string: everything after an optional
/// leading plus sign.
pub open spec fn port_digits(s: Seq<char>) -> Seq<char> {
    if s.len() > 0 && s[0] == '+' {
        s.skip(1)
    } else {
        s
    }
}

/// A string is a valid port when, after an optional leading plus
/// sign, it consists of one or more decimal digits whose value fits
/// in a 16-bit unsigned integer.
pub open spec fn is_valid_port(s: Seq<char>) -> bool {
    let d = port_digits(s);
    d.len() > 0 && all_decimal_digits(d) && decimal_value(d) <= u16::MAX
}

/// The numeric value of a valid port string.
pub open spec fn port_value(s: Seq<char>) -> int {
    decimal_value(port_digits(s))
}

proof fn lemma_decimal_value_nonneg(s: Seq<char>)
    requires
        all_decimal_digits(s),
    ensures
        decimal_value(s) >= 0,
    decreases s.len(),
{
    if s.len() > 0 {
        assert(forall|i: int| 0 <= i < s.len() - 1 ==> s.drop_last()[i] == #[trigger] s[i]);
        lemma_decimal_value_nonneg(s.drop_last());
    }
}

/// Dropping trailing digits never increases the value of a digit
/// string.
proof fn lemma_decimal_value_prefix(s: Seq<char>, k: int)
    requires
        all_decimal_digits(s),
        0 <= k <= s.len(),
    ensures
        decimal_value(s.take(k)) <= decimal_value(s),
    decreases s.len() - k,
{
    if k == s.len() {
        assert(s.take(k) =~= s);
    } else {
        assert(s.take(k + 1).drop_last() =~= s.take(k));
        assert(s.take(k + 1).last() == s[k]);
        assert(forall|i: int| 0 <= i < k ==> s.take(k)[i] == #[trigger] s[i]);
        lemma_decimal_value_nonneg(s.take(k));
        assert(decimal_value(s.take(k + 1)) == decimal_value(s.take(k)) * 10 + digit_value(s[k]));
        lemma_decimal_value_prefix(s, k + 1);
    }
}

/// Parses a port string: after an optional leading plus sign, one or
/// more decimal digits whose value fits in a 16-bit unsigned integer.
pub fn parse_port(s: &str) -> (r: Option<u16>)
    ensures
        r is Some <==> is_valid_port(s@),
        r matches Some(p) ==> p as int == port_value(s@),
{
    if !s.is_ascii() {
        proof {
            let j = choose|j: int|
                0 <= j < s@.len() && !('\0' <= s@[j] && s@[j] <= '\u{7f}');
            let d = port_digits(s@);
            if s@.len() > 0 && s@[0] == '+' {
                assert(d[j - 1] == s@[j]);
                assert(!is_decimal_digit(d[j - 1]));
            } else {
                assert(!is_decimal_digit(d[j]));
            }
        }
        return None;
    }
    let bytes: &[u8] = s.as_bytes();
    let n: usize = bytes.len();
    proof {
        is_ascii_chars_encode_utf8(s@);
    }
    if n == 0 {
        return None;
    }
    let mut i: usize = 0;
    if bytes[0] == 43 {
        // a leading plus sign must be followed by at least one digit
        i = 1;
        if n == 1 {
            proof {
                assert(s@[0] == '+');
                assert(port_digits(s@).len() == 0);
            }
            return None;
        }
    }
    let ghost d = port_digits(s@);
    let ghost start = i as int;
    proof {
        if start == 1 {
            assert(s@[0] == '+');
            assert(d =~= s@.skip(1));
        } else {
            assert(s@[0] as u8 != 43);
            assert(s@[0] != '+');
            assert(d =~= s@.skip(0));
            assert(d =~= s@);
        }
    }
    let mut val: u32 = 0;
    while i < n
        invariant
            0 <= start <= i as int <= n,
            start < n,
            n == s@.len(),
            n == bytes@.len(),
            is_ascii_chars(s@),
            forall|k: int| 0 <= k < n ==> bytes@[k] == #[trigger] s@[k] as u8,
            d == port_digits(s@),
            d.len() == n - start,
            forall|k: int| 0 <= k < n - start ==> #[trigger] d[k] == s@[k + start],
            all_decimal_digits(d.take(i as int - start)),
            val as int == decimal_value(d.take(i as int - start)),
            val <= 65535,
        decreases n - i,
    {
        let b = bytes[i];
        proof {
            assert(b == s@[i as int] as u8);
            assert('\0' <= s@[i as int] && s@[i as int] <= '\u{7f}');
        }
        if b < 48 || b > 57 {
            proof {
                assert(!is_decimal_digit(s@[i as int]));
                assert(d[i as int - start] == s@[i as int]);
                assert(!all_decimal_digits(d));
            }
            return None;
        }
        let digit: u32 = (b - 48) as u32;
        proof {
            assert(is_decimal_digit(s@[i as int]));
            assert(digit as int == digit_value(s@[i as int]));
            let j = i as int - start;
            assert(d.take(j + 1).drop_last() =~= d.take(j));
            assert(d.take(j + 1).last() == d[j]);
            assert(d[j] == s@[i as int]);
        }
        let next: u32 = val * 10 + digit;
        if next > 65535 {
            proof {
                let j = i as int - start;
                assert(decimal_value(d.take(j + 1)) == next as int);
                if all_decimal_digits(d) {
                    lemma_decimal_value_prefix(d, j + 1);
                    assert(decimal_value(d) > u16::MAX);
                }
            }
            return None;
        }
        proof {
            let j = i as int - start;
            assert(all_decimal_digits(d.take(j + 1)));
            assert(decimal_value(d.take(j + 1)) == next as int);
        }
        val = next;
        i = i + 1;
    }
    proof {
        assert(d.take(n - start) =~= d);
        assert(is_valid_port(s@));
    }
    Some(val as u16)
}

/// The first absent value among the five required parameters, in
/// checking order, if any is absent.
pub open spec fn first_missing(
    user: Option<String>,
    pass: Option<String>,
    host: Option<String>,
    port: Option<String>,
    name: Option<String>,
) -> Option<ConfigVar> {
    if user is None {
        Some(ConfigVar::User)
    } else if pass is None {
        Some(ConfigVar::Pass)
    } else if host is None {
        Some(ConfigVar::Host)
    } else if port is None {
        Some(ConfigVar::Port)
    } else if name is None {
        Some(ConfigVar::Name)
    } else {
        None
    }
}

/// Validates the five environment values and builds the connection
/// parameters. Absent values are reported in checking order; the
/// port string is parsed only once all five values are present.
pub fn build_config(
    user: Option<String>,
    pass: Option<String>,
    host: Option<String>,
    port: Option<String>,
    name: Option<String>,
) -> (r: Result<DbConfig, ConfigError>)
    ensures
        r is Ok <==> first_missing(user, pass, host, port, name) is None
            && is_valid_port(port->Some_0@),
        first_missing(user, pass, host, port, name) matches Some(v)
            ==> r == Result::<DbConfig, ConfigError>::Err(ConfigError::Missing(v)),
        (first_missing(user, pass, host, port, name) is None
            && !is_valid_port(port->Some_0@))
            ==> r == Result::<DbConfig, ConfigError>::Err(ConfigError::InvalidPort),
        r matches Ok(c) ==> c.user@ == user->Some_0@
            && c.pass@ == pass->Some_0@
            && c.host@ == host->Some_0@
            && c.name@ == name->Some_0@
            && c.port as int == port_value(port->Some_0@),
{
    let user = match user {
        Some(v) => v,
        None => {
            return Err(ConfigError::Missing(ConfigVar::User));
        },
    };
    let pass = match pass {
        Some(v) => v,
        None => {
            return Err(ConfigError::Missing(ConfigVar::Pass));
        },
    };
    let host = match host {
        Some(v) => v,
        None => {
            return Err(ConfigError::Missing(ConfigVar::Host));
        },
    };
    let port = match port {
        Some(v) => v,
        None => {
            return Err(ConfigError::Missing(ConfigVar::Port));
        },
    };
    let name = match name {
        Some(v) => v,
        None => {
            return Err(ConfigError::Missing(ConfigVar::Name));
        },
    };
    let port_num = match parse_port(port.as_str()) {
        Some(p) => p,
        None => {
            return Err(ConfigError::InvalidPort);
        },
    };
    Ok(DbConfig { user, pass, host, port: port_num, name })
}

} // verus!
