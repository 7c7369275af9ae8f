use vstd::prelude::*;

verus! {

/// The bot's settings.
#[derive(Debug)]
pub struct Config {
    pub telegram_token: String,
    pub poll: bool,
    pub host: String,
    pub port: u16,
    pub redis_url: String,
}

/// Why the settings could not be read.
#[derive(Debug, Clone, Copy, PartialEq, Eq, Structural)]
pub enum ConfigError {
    MissingToken,
    MissingHost,
    NonBooleanPoll,
    NonIntegerPort,
    MissingRedisUrl,
}

/// The port used when none is set.
pub const DEFAULT_PORT: u16 = 3000;

/// `s` is all decimal digits.
pub open spec fn all_digits(s: Seq<char>) -> bool {
    forall|i: int| 0 <= i < s.len() ==> '0' <= #[trigger] s[i] && s[i] <= '9'
}

/// The number that the digits `s` write.
pub open spec fn digits_value(s: Seq<char>) -> nat
    decreases s.len(),
{
    if s.len() == 0 {
        0
    } else {
        digits_value(s.drop_last()) * 10 + (s.last() as nat - '0' as nat) as nat
    }
}

/// `s` without the one leading `+` that it may have.
pub open spec fn unsigned_digits(s: Seq<char>) -> Seq<char> {
    if s.len() > 0 && s[0] == '+' {
        s.subrange(1, s.len() as int)
    } else {
        s
    }
}

/// The port that `s` writes, read as Rust reads a `u16`: an optional `+`,
/// then at least one digit, with a value that fits.
pub open spec fn port_value(s: Seq<char>) -> Option<u16> {
    let d = unsigned_digits(s);
    if d.len() > 0 && all_digits(d) && digits_value(d) <= u16::MAX {
        Some(digits_value(d) as u16)
    } else {
        None
    }
}

/// The flag that `s` writes, read as Rust reads a `bool`.
pub open spec fn bool_value(s: Seq<char>) -> Option<bool> {
    if s == "true"@ {
        Some(true)
    } else if s == "false"@ {
        Some(false)
    } else {
        None
    }
}

proof fn lemma_digits_value_grows(s: Seq<char>, m: int)
    requires
        0 <= m <= s.len(),
        all_digits(s),
    ensures
        digits_value(s.take(m)) <= digits_value(s),
    decreases s.len(),
{
    if m < s.len() {
        assert(s.drop_last().take(m) =~= s.take(m));
        lemma_digits_value_grows(s.drop_last(), m);
    } else {
        assert(s.take(m) =~= s);
    }
}

/// Reads a port number.
pub fn parse_port(s: &str) -> (r: Option<u16>)
    ensures
        r == port_value(s@),
{
    let n = s.unicode_len();
    let mut start: usize = 0;
    if n > 0 && s.get_char(0) == '+' {
        start = 1;
    }
    let ghost d = unsigned_digits(s@);
    assert(d =~= s@.subrange(start as int, n as int));
    if start == n {
        return None;
    }
    let mut value: u32 = 0;
    let mut i: usize = start;
    while i < n
        invariant
            start <= i <= n,
            n == s@.len(),
            d == s@.subrange(start as int, n as int),
            d == unsigned_digits(s@),
            all_digits(d.take(i - start)),
            value == digits_value(d.take(i - start)),
            value <= u16::MAX,
        decreases n - i,
    {
        let c = s.get_char(i);
        assert(d[i - start] == c);
        if c < '0' || c > '9' {
            proof {
                let j = i - start;
                assert(!('0' <= d[j] && d[j] <= '9'));
                assert(!all_digits(d));
            }
            return None;
        }
        let ghost k = (i - start) as int;
        assert(d.take(k + 1).drop_last() =~= d.take(k));
        assert(all_digits(d.take(k + 1)));
        let next = value * 10 + (c as u32 - '0' as u32);
        assert(d.take(k + 1).last() == c);
        assert(digits_value(d.take(k + 1)) == next);
        if next > 65535 {
            proof {
                if all_digits(d) {
                    lemma_digits_value_grows(d, k + 1);
                }
            }
            return None;
        }
        value = next;
        i = i + 1;
    }
    assert(d.take(n - start) =~= d);
    Some(value as u16)
}

/// Reads a flag.
pub fn parse_bool(s: &str) -> (r: Option<bool>)
    ensures
        r == bool_value(s@),
{
    let owned = String::from_str(s);
    let t = String::from_str("true");
    let f = String::from_str("false");
    if owned == t {
        Some(true)
    } else if owned == f {
        Some(false)
    } else {
        None
    }
}

impl Config {
    /// The settings from the values of `TOKEN`, `HOST`, `POLL`, `PORT` and
    /// `REDIS_URL` (`None` where one is not set). `POLL` defaults to false
    /// and `PORT` to 3000; the others must be set. The first failing
    /// setting, in that order, gives the error.
    pub fn from_values(
        token: Option<String>,
        host: Option<String>,
        poll: Option<String>,
        port: Option<String>,
        redis_url: Option<String>,
    ) -> (r: Result<Config, ConfigError>)
        ensures
            token.is_none() ==> r == Err::<Config, ConfigError>(ConfigError::MissingToken),
            token.is_some() && host.is_none() ==> r == Err::<Config, ConfigError>(
                ConfigError::MissingHost,
            ),
            token.is_some() && host.is_some() && poll.is_some() && bool_value(poll.unwrap()@).is_none()
                ==> r == Err::<Config, ConfigError>(ConfigError::NonBooleanPoll),
            token.is_some() && host.is_some() && (poll.is_none() || bool_value(poll.unwrap()@).is_some())
                && port.is_some() && port_value(port.unwrap()@).is_none() ==> r == Err::<
                Config,
                ConfigError,
            >(ConfigError::NonIntegerPort),
            token.is_some() && host.is_some() && (poll.is_none() || bool_value(poll.unwrap()@).is_some())
                && (port.is_none() || port_value(port.unwrap()@).is_some()) && redis_url.is_none()
                ==> r == Err::<Config, ConfigError>(ConfigError::MissingRedisUrl),
            token.is_some() && host.is_some() && redis_url.is_some() && (poll.is_none() || bool_value(
                poll.unwrap()@,
            ).is_some()) && (port.is_none() || port_value(port.unwrap()@).is_some()) ==> r.is_ok(),
            r.is_ok() ==> {
                let c = r.unwrap();
                &&& token.is_some() && c.telegram_token@ == token.unwrap()@
                &&& host.is_some() && c.host@ == host.unwrap()@
                &&& redis_url.is_some() && c.redis_url@ == redis_url.unwrap()@
                &&& c.poll == match poll {
                    Some(p) => bool_value(p@) == Some(true),
                    None => false,
                }
                &&& c.port == match port {
                    Some(p) => port_value(p@).unwrap(),
                    None => DEFAULT_PORT,
                }
            },
    {
        let telegram_token = match token {
            Some(t) => t,
            None => return Err(ConfigError::MissingToken),
        };
        let host = match host {
            Some(h) => h,
            None => return Err(ConfigError::MissingHost),
        };
        let poll = match &poll {
            Some(p) => match parse_bool(p.as_str()) {
                Some(b) => b,
                None => return Err(ConfigError::NonBooleanPoll),
            },
            None => false,
        };
        let port = match &port {
            Some(p) => match parse_port(p.as_str()) {
                Some(n) => n,
                None => return Err(ConfigError::NonIntegerPort),
            },
            None => DEFAULT_PORT,
        };
        let redis_url = match redis_url {
            Some(u) => u,
            None => return Err(ConfigError::MissingRedisUrl),
        };
        Ok(Config { telegram_token, poll, host, port, redis_url })
    }
}

} // verus!
