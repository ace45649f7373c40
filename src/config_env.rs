use vstd::prelude::*;
use vstd::string::*;

verus! {

/// Port the service binds to when none is configured.
pub const DEFAULT_SERVICE_PORT: u16 = 8080;

/// Collector address traces go to when none is configured.
pub const DEFAULT_OTEL_URL: &'static str = "https://localhost:4317";

/// Whether the service runs in development mode when nothing says otherwise.
pub const DEFAULT_DEV_MODE: bool = false;

/// The settings the service reads from its environment.
#[derive(Clone, Copy, Debug, PartialEq, Eq, Structural)]
pub enum ConfigEnvKey {
    /// Url used to configure the trace collector.
    OtelCollectorUrl,
    /// Port that the service will bind to.
    ServicePort,
    /// Ip that the service will bind to.
    ServiceIp,
    /// Whether the service runs in development mode.
    DevMode,
    /// Base URL of the token authority.
    Authority,
}

/// A setting that is present but cannot be read as its type, or a required one that is missing.
#[derive(Clone, Copy, Debug, PartialEq, Eq, Structural)]
pub enum ConfigError {
    InvalidPort,
    InvalidDevMode,
    MissingAuthority,
}

impl ConfigEnvKey {
    /// The name of the environment variable that holds the setting.
    pub open spec fn name(self) -> Seq<char> {
        match self {
            ConfigEnvKey::ServicePort => "SERVICE_PORT"@,
            ConfigEnvKey::ServiceIp => "SERVICE_IP"@,
            ConfigEnvKey::OtelCollectorUrl => "OTEL_COLLECTOR_URL"@,
            ConfigEnvKey::DevMode => "DEV_MODE"@,
            ConfigEnvKey::Authority => "AUTHORITY"@,
        }
    }

    /// The name of the environment variable that holds the setting.
    pub fn as_str(&self) -> (r: &'static str)
        ensures
            r@ == self.name(),
    {
        match self {
            ConfigEnvKey::ServicePort => "SERVICE_PORT",
            ConfigEnvKey::ServiceIp => "SERVICE_IP",
            ConfigEnvKey::OtelCollectorUrl => "OTEL_COLLECTOR_URL",
            ConfigEnvKey::DevMode => "DEV_MODE",
            ConfigEnvKey::Authority => "AUTHORITY",
        }
    }
}

/// A decimal digit.
pub open spec fn is_digit(c: char) -> bool {
    '0' <= c <= '9'
}

/// The number that the decimal digits `s` write.
pub open spec fn digits_value(s: Seq<char>) -> nat
    decreases s.len(),
{
    if s.len() == 0 {
        0
    } else {
        digits_value(s.drop_last()) * 10 + (s.last() as u32 - '0' as u32) as nat
    }
}

/// The digits of a port setting: the text without one leading `+`.
pub open spec fn port_digits(s: Seq<char>) -> Seq<char> {
    if s.len() > 0 && s[0] == '+' {
        s.drop_first()
    } else {
        s
    }
}

/// A port setting is an optional `+` and at least one decimal digit, of value at most 65535.
pub open spec fn is_port_text(s: Seq<char>) -> bool {
    let d = port_digits(s);
    &&& d.len() > 0
    &&& forall|i: int| 0 <= i < d.len() ==> is_digit(#[trigger] d[i])
    &&& digits_value(d) <= u16::MAX
}

/// The port that the `SERVICE_PORT` setting `raw` names; the default port when it is unset.
pub fn port_from_setting(raw: Option<&str>) -> (r: Result<u16, ConfigError>)
    ensures
        match raw {
            None => r == Ok::<u16, ConfigError>(DEFAULT_SERVICE_PORT),
            Some(s) => if is_port_text(s@) {
                r == Ok::<u16, ConfigError>(digits_value(port_digits(s@)) as u16)
            } else {
                r == Err::<u16, ConfigError>(ConfigError::InvalidPort)
            },
        },
{
    let s = match raw {
        None => return Ok(DEFAULT_SERVICE_PORT),
        Some(s) => s,
    };
    let len = s.unicode_len();
    let start: usize = if len > 0 && s.get_char(0) == '+' { 1 } else { 0 };
    let ghost d = port_digits(s@);
    proof {
        if start == 1 {
            assert(d =~= s@.subrange(1, len as int));
        } else {
            assert(d =~= s@.subrange(0, len as int));
        }
    }
    if start == len {
        return Err(ConfigError::InvalidPort);
    }
    let mut value: u32 = 0;
    let mut over = false;
    let mut i = start;
    while i < len
        invariant
            raw == Some(s),
            len == s@.len(),
            start <= i <= len,
            d == s@.subrange(start as int, len as int),
            d == port_digits(s@),
            forall|j: int| start <= j < i ==> is_digit(#[trigger] s@[j]),
            !over ==> value == digits_value(s@.subrange(start as int, i as int)),
            !over ==> value <= u16::MAX,
            over ==> digits_value(s@.subrange(start as int, i as int)) > u16::MAX,
        decreases len - i,
    {
        let c = s.get_char(i);
        if !('0' <= c && c <= '9') {
            assert(d[i - start] == c);
            assert(!is_digit(d[i - start]));
            return Err(ConfigError::InvalidPort);
        }
        let ghost prefix = s@.subrange(start as int, i + 1);
        assert(prefix.drop_last() =~= s@.subrange(start as int, i as int));
        assert(prefix.last() == c);
        if !over {
            value = value * 10 + (c as u32 - '0' as u32);
            if value > 65535 {
                over = true;
            }
        }
        i = i + 1;
    }
    proof {
        assert(s@.subrange(start as int, i as int) == d);
        assert forall|j: int| 0 <= j < d.len() implies is_digit(#[trigger] d[j]) by {
            assert(d[j] == s@[start + j]);
        }
    }
    if over {
        Err(ConfigError::InvalidPort)
    } else {
        Ok(value as u16)
    }
}

/// Whether the `DEV_MODE` setting `raw` turns development mode on; off when it is unset.
/// Only `true` and `false` are read.
pub fn dev_mode_from_setting(raw: Option<&str>) -> (r: Result<bool, ConfigError>)
    ensures
        match raw {
            None => r == Ok::<bool, ConfigError>(DEFAULT_DEV_MODE),
            Some(s) => if s@ == "true"@ {
                r == Ok::<bool, ConfigError>(true)
            } else if s@ == "false"@ {
                r == Ok::<bool, ConfigError>(false)
            } else {
                r == Err::<bool, ConfigError>(ConfigError::InvalidDevMode)
            },
        },
{
    match raw {
        None => Ok(DEFAULT_DEV_MODE),
        Some(s) => {
            let len = s.unicode_len();
            let yes = "true";
            let no = "false";
            proof {
                reveal_strlit("true");
                reveal_strlit("false");
            }
            if len == 4 && crate::text::holds_at(s, 0, yes, 4) {
                assert(s@ =~= s@.subrange(0, 4));
                Ok(true)
            } else if len == 5 && crate::text::holds_at(s, 0, no, 5) {
                assert(s@ =~= s@.subrange(0, 5));
                Ok(false)
            } else {
                proof {
                    if s@ == "true"@ {
                        assert(s@.subrange(0, 4) =~= s@);
                    }
                    if s@ == "false"@ {
                        assert(s@.subrange(0, 5) =~= s@);
                    }
                }
                Err(ConfigError::InvalidDevMode)
            }
        },
    }
}

/// The collector address that the `OTEL_COLLECTOR_URL` setting `raw` names, or the default.
pub fn otel_url_from_setting(raw: Option<String>) -> (r: String)
    ensures
        match raw {
            None => r@ == DEFAULT_OTEL_URL@,
            Some(s) => r@ == s@,
        },
{
    match raw {
        None => String::from_str(DEFAULT_OTEL_URL),
        Some(s) => s,
    }
}

/// The token authority that the `AUTHORITY` setting `raw` names. Outside development
/// mode it must be present and non-empty; in development mode tokens are not checked
/// against it, so it may be missing (read as empty).
pub fn authority_from_setting(raw: Option<String>, dev_mode: bool) -> (r: Result<String, ConfigError>)
    ensures
        dev_mode ==> match raw {
            Some(s) => r matches Ok(a) && a@ == s@,
            None => r matches Ok(a) && a@.len() == 0,
        },
        !dev_mode ==> match raw {
            Some(s) if s@.len() > 0 => r matches Ok(a) && a@ == s@,
            _ => r == Err::<String, ConfigError>(ConfigError::MissingAuthority),
        },
{
    match raw {
        Some(s) => {
            if dev_mode || s.as_str().unicode_len() > 0 {
                Ok(s)
            } else {
                Err(ConfigError::MissingAuthority)
            }
        },
        None => {
            if dev_mode {
                Ok(String::new())
            } else {
                Err(ConfigError::MissingAuthority)
            }
        },
    }
}

} // verus!
