use vstd::prelude::*;
use vstd::string::*;

verus! {

/// How the agent is configured.
#[derive(Debug, Clone, PartialEq, Eq)]
pub struct Settings {
    pub api_key: String,
    pub backend_base_url: String,
    pub server_id: String,
    pub interval_secs: u64,
}

/// The shortest publishing interval, in seconds, that the environment may set.
pub const MIN_INTERVAL_SECS: u64 = 5u64;

/// The value of an ASCII decimal digit.
pub open spec fn digit_value(c: char) -> int {
    c as int - '0' as int
}

pub open spec fn is_digit(c: char) -> bool {
    '0' <= c && c <= '9'
}

/// The number that a string of decimal digits spells.
pub open spec fn decimal_value(s: Seq<char>) -> nat
    decreases s.len(),
{
    if s.len() == 0 {
        0
    } else {
        (decimal_value(s.drop_last()) * 10 + digit_value(s.last())) as nat
    }
}

/// The text after an optional leading `+`.
pub open spec fn unsigned_digits(s: Seq<char>) -> Seq<char> {
    if s.len() > 0 && s[0] == '+' {
        s.drop_first()
    } else {
        s
    }
}

/// Every character is an ASCII digit.
pub open spec fn all_digits(s: Seq<char>) -> bool {
    forall|i: int| 0 <= i < s.len() ==> is_digit(#[trigger] s[i])
}

/// What `str::parse::<u64>` gives: an optional `+`, then one or more ASCII digits
/// whose value fits in a `u64`; anything else is an error (`None` here).
pub open spec fn parse_u64_spec(s: Seq<char>) -> Option<u64> {
    let digits = unsigned_digits(s);
    if digits.len() > 0 && all_digits(digits) && decimal_value(digits) <= u64::MAX {
        Some(decimal_value(digits) as u64)
    } else {
        None
    }
}

/// The interval that a configured value gives: the parsed number, raised to the
/// minimum.
pub open spec fn interval_from(s: Seq<char>) -> Option<u64> {
    match parse_u64_spec(s) {
        Some(n) => Some(if n < MIN_INTERVAL_SECS { MIN_INTERVAL_SECS } else { n }),
        None => None,
    }
}

proof fn lemma_decimal_value_push(s: Seq<char>, c: char)
    requires
        is_digit(c),
    ensures
        decimal_value(s.push(c)) == decimal_value(s) * 10 + digit_value(c),
{
    assert(s.push(c).drop_last() =~= s);
}

/// `s.parse::<u64>().ok()`.
pub fn parse_u64(s: &str) -> (r: Option<u64>)
    ensures
        r == parse_u64_spec(s@),
{
    let n = s.unicode_len();
    let mut start: usize = 0;
    if n > 0 && s.get_char(0) == '+' {
        start = 1;
    }
    let ghost digits = unsigned_digits(s@);
    assert(digits =~= s@.subrange(start as int, n as int));
    if start == n {
        return None;
    }
    let mut value: u64 = 0;
    let mut i: usize = start;
    while i < n
        invariant
            n == s@.len(),
            start <= i <= n,
            digits == s@.subrange(start as int, n as int),
            digits == unsigned_digits(s@),
            forall|k: int| start <= k < i ==> is_digit(#[trigger] s@[k]),
            value == decimal_value(s@.subrange(start as int, i as int)),
        decreases n - i,
    {
        let c = s.get_char(i);
        if !('0' <= c && c <= '9') {
            assert(digits[i - start] == c);
            assert(!is_digit(digits[i - start]));
            assert(!all_digits(digits));
            return None;
        }
        let d = (c as u32 - '0' as u32) as u64;
        proof {
            lemma_decimal_value_push(s@.subrange(start as int, i as int), c);
            assert(s@.subrange(start as int, i as int).push(c) =~= s@.subrange(
                start as int,
                i + 1,
            ));
        }
        if value > (u64::MAX - d) / 10 {
            proof {
                assert(decimal_value(s@.subrange(start as int, i + 1)) > u64::MAX) by (
                nonlinear_arith)
                    requires
                        decimal_value(s@.subrange(start as int, i + 1)) == value * 10 + d,
                        value > (u64::MAX - d) / 10,
                        d <= 9,
                ;
                assert(s@.subrange(start as int, i + 1) =~= digits.take((i + 1 - start) as int));
                if all_digits(digits) {
                    lemma_decimal_prefix_monotone(digits, (i + 1 - start) as int);
                }
            }
            return None;
        }
        assert(value * 10 + d <= u64::MAX) by (nonlinear_arith)
            requires
                value <= (u64::MAX - d) / 10,
                d <= 9,
        ;
        value = value * 10 + d;
        i = i + 1;
    }
    assert(s@.subrange(start as int, n as int) =~= digits);
    Some(value)
}

/// A longer prefix of digits never spells a smaller number.
proof fn lemma_decimal_prefix_monotone(s: Seq<char>, k: int)
    requires
        0 <= k <= s.len(),
        all_digits(s),
    ensures
        decimal_value(s.take(k)) <= decimal_value(s),
    decreases s.len() - k,
{
    if k < s.len() {
        lemma_decimal_prefix_monotone(s, k + 1);
        assert(s.take(k + 1).drop_last() =~= s.take(k));
        assert(is_digit(s[k]));
        assert(decimal_value(s.take(k)) <= decimal_value(s.take(k + 1))) by (nonlinear_arith)
            requires
                decimal_value(s.take(k + 1)) == decimal_value(s.take(k)) * 10 + digit_value(s[k]),
                digit_value(s[k]) >= 0,
        ;
    } else {
        assert(s.take(k) =~= s);
    }
}

/// The API key used when none is configured.
pub const DEFAULT_API_KEY: &'static str = "not-needed";

/// The backend used when none is configured.
pub const DEFAULT_BACKEND_URL: &'static str = "http://localhost:8000";

/// The server id used when none is configured.
pub const DEFAULT_SERVER_ID: &'static str = "servidor-ejemplo-01";

/// The publishing interval, in seconds, used when none is configured.
pub const DEFAULT_INTERVAL_SECS: u64 = 10u64;

impl Settings {
    /// Settings for a backend and a server id, with the default API key.
    pub fn new(backend_base_url: String, server_id: String, interval_secs: u64) -> (r: Settings)
        ensures
            r.api_key@ == DEFAULT_API_KEY@,
            r.backend_base_url == backend_base_url,
            r.server_id == server_id,
            r.interval_secs == interval_secs,
    {
        Settings { api_key: String::from_str(DEFAULT_API_KEY), backend_base_url, server_id, interval_secs }
    }

    /// The settings with the values read from the environment laid over them:
    /// a present key, URL or server id replaces the current one; an interval
    /// replaces it only when it parses as a `u64`, and is raised to the minimum.
    pub fn with_overrides(
        self,
        api_key: Option<String>,
        backend_url: Option<String>,
        server_id: Option<String>,
        interval_secs: Option<String>,
    ) -> (r: Settings)
        ensures
            r.api_key == match api_key {
                Some(v) => v,
                None => self.api_key,
            },
            r.backend_base_url == match backend_url {
                Some(v) => v,
                None => self.backend_base_url,
            },
            r.server_id == match server_id {
                Some(v) => v,
                None => self.server_id,
            },
            r.interval_secs == match interval_secs {
                Some(v) => match interval_from(v@) {
                    Some(n) => n,
                    None => self.interval_secs,
                },
                None => self.interval_secs,
            },
    {
        let mut settings = self;
        if let Some(v) = api_key {
            settings.api_key = v;
        }
        if let Some(v) = backend_url {
            settings.backend_base_url = v;
        }
        if let Some(v) = server_id {
            settings.server_id = v;
        }
        if let Some(v) = interval_secs {
            if let Some(parsed) = parse_u64(v.as_str()) {
                settings.interval_secs = if parsed < MIN_INTERVAL_SECS {
                    MIN_INTERVAL_SECS
                } else {
                    parsed
                };
            }
        }
        settings
    }

    /// The default settings with the values read from the environment
    /// (`AGENT_API_KEY`, `BACKEND_URL`, `AGENT_ID`, `METRICS_INTERVAL_SECS`) laid
    /// over them.
    pub fn load_with(
        api_key: Option<String>,
        backend_url: Option<String>,
        server_id: Option<String>,
        interval_secs: Option<String>,
    ) -> (r: Settings)
        ensures
            match api_key {
                Some(v) => r.api_key == v,
                None => r.api_key@ == DEFAULT_API_KEY@,
            },
            match backend_url {
                Some(v) => r.backend_base_url == v,
                None => r.backend_base_url@ == DEFAULT_BACKEND_URL@,
            },
            match server_id {
                Some(v) => r.server_id == v,
                None => r.server_id@ == DEFAULT_SERVER_ID@,
            },
            r.interval_secs == match interval_secs {
                Some(v) => match interval_from(v@) {
                    Some(n) => n,
                    None => DEFAULT_INTERVAL_SECS,
                },
                None => DEFAULT_INTERVAL_SECS,
            },
    {
        let base = Settings::default();
        base.with_overrides(api_key, backend_url, server_id, interval_secs)
    }
}

impl Default for Settings {
    /// No API key, the local backend on port 8000, the sample server id and a
    /// 10-second interval.
    fn default() -> (r: Settings)
        ensures
            r.api_key@ == DEFAULT_API_KEY@,
            r.backend_base_url@ == DEFAULT_BACKEND_URL@,
            r.server_id@ == DEFAULT_SERVER_ID@,
            r.interval_secs == DEFAULT_INTERVAL_SECS,
    {
        Settings {
            api_key: String::from_str(DEFAULT_API_KEY),
            backend_base_url: String::from_str(DEFAULT_BACKEND_URL),
            server_id: String::from_str(DEFAULT_SERVER_ID),
            interval_secs: DEFAULT_INTERVAL_SECS,
        }
    }
}

/// An interval taken from the environment is never below the minimum.
pub proof fn law_configured_interval_at_least_minimum(s: Seq<char>)
    ensures
        interval_from(s) matches Some(n) ==> n >= MIN_INTERVAL_SECS,
{
}

} // verus!
