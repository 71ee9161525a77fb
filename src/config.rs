use vstd::prelude::*;

verus! {

/// The value of a run of ASCII digits.
pub open spec fn digits_value(t: Seq<char>) -> int
    decreases t.len(),
{
    if t.len() == 0 {
        0
    } else {
        digits_value(t.drop_last()) * 10 + (t.last() as int - '0' as int)
    }
}

pub open spec fn all_digits(t: Seq<char>) -> bool {
    forall|i: int| 0 <= i < t.len() ==> '0' <= #[trigger] t[i] <= '9'
}

/// The value of a decimal text: an optional `+`, then at least one digit.
pub open spec fn decimal_text(s: Seq<char>) -> Option<int> {
    let t = if s.len() > 0 && s[0] == '+' { s.drop_first() } else { s };
    if t.len() > 0 && all_digits(t) {
        Some(digits_value(t))
    } else {
        None
    }
}

pub open spec fn parse_spec(s: Seq<char>, max: int) -> Option<int> {
    match decimal_text(s) {
        Some(v) => if 0 <= v <= max { Some(v) } else { None },
        None => None,
    }
}

/// Relies on std's `str::parse::<u16>`: an optional `+` and decimal
/// digits whose value fits.
#[verifier::external_body]
fn parse_u16(s: &str) -> (r: Option<u16>)
    ensures
        match parse_spec(s@, u16::MAX as int) {
            Some(v) => r == Some(v as u16),
            None => r is None,
        },
{
    s.parse::<u16>().ok()
}

/// Relies on std's `str::parse::<u8>`: an optional `+` and decimal
/// digits whose value fits.
#[verifier::external_body]
fn parse_u8(s: &str) -> (r: Option<u8>)
    ensures
        match parse_spec(s@, u8::MAX as int) {
            Some(v) => r == Some(v as u8),
            None => r is None,
        },
{
    s.parse::<u8>().ok()
}

/// Why a configuration was refused.
#[derive(PartialEq, Eq, Structural, Clone, Copy, Debug)]
pub enum ConfigError {
    InvalidPort,
    InvalidMaxSessions,
}

/// The process configuration.
pub struct Config {
    pub rust_port: u16,
    pub svelte_url: String,
    pub from_email: String,
    pub from_email_server: String,
    pub from_email_password: String,
    pub max_sessions: u8,
    pub api_token: String,
}

/// `given`, or `default` where nothing was given.
pub open spec fn or_default(given: Option<String>, default: Seq<char>) -> Seq<char> {
    match given {
        Some(s) => s@,
        None => default,
    }
}

fn value_or(given: Option<String>, default: &str) -> (r: String)
    ensures
        r@ == or_default(given, default@),
{
    match given {
        Some(s) => s,
        None => default.to_owned(),
    }
}

impl Config {
    /// Builds the configuration from the values found in the environment
    /// and the secrets, each `None` where it was not set: a port (default
    /// 8080), the front-end origin, the session cap (default 2), the mail
    /// account and the API token.
    pub fn load(
        rust_port: Option<String>,
        svelte_url: Option<String>,
        max_sessions: Option<String>,
        from_email: Option<String>,
        from_email_server: Option<String>,
        from_email_password: Option<String>,
        api_token: Option<String>,
    ) -> (r: Result<Config, ConfigError>)
        ensures
            ({
                let port = parse_spec(or_default(rust_port, "8080"@), u16::MAX as int);
                let cap = parse_spec(or_default(max_sessions, "2"@), u8::MAX as int);
                &&& port is None ==> r == Err::<Config, ConfigError>(ConfigError::InvalidPort)
                &&& port is Some && cap is None ==> r == Err::<Config, ConfigError>(ConfigError::InvalidMaxSessions)
                &&& port is Some && cap is Some ==> (r matches Ok(c) && c.rust_port == port->0 && c.max_sessions
                    == cap->0 && c.svelte_url@ == or_default(svelte_url, "http://localhost:5173"@)
                    && c.from_email@ == or_default(from_email, "WeAreInTroubleGoodnessGracious"@)
                    && c.from_email_server@ == or_default(from_email_server, "ohdear"@)
                    && c.from_email_password@ == or_default(from_email_password, "its so over"@)
                    && c.api_token@ == or_default(api_token, "its so over"@))
            }),
    {
        let port_text = value_or(rust_port, "8080");
        let rust_port = match parse_u16(port_text.as_str()) {
            Some(p) => p,
            None => {
                return Err(ConfigError::InvalidPort);
            },
        };
        let cap_text = value_or(max_sessions, "2");
        let max_sessions = match parse_u8(cap_text.as_str()) {
            Some(m) => m,
            None => {
                return Err(ConfigError::InvalidMaxSessions);
            },
        };
        Ok(Config {
            rust_port,
            svelte_url: value_or(svelte_url, "http://localhost:5173"),
            from_email: value_or(from_email, "WeAreInTroubleGoodnessGracious"),
            from_email_server: value_or(from_email_server, "ohdear"),
            from_email_password: value_or(from_email_password, "its so over"),
            max_sessions,
            api_token: value_or(api_token, "its so over"),
        })
    }
}

} // verus!
