//! Gateway and backend configuration, built once at startup from
//! environment-supplied text values and immutable afterwards.
//!
//! The unverified shell reads the process environment and hands each raw
//! value in as an `Option<String>`; everything decided here — defaults,
//! number parsing, the preload flag's accepted spellings — is verified.

use vstd::prelude::*;

verus! {


/// ASCII byte values used by the parsers.
pub const B_D0: u8 = 48;

pub const B_D9: u8 = 57;

pub const B_PLUS: u8 = 43;

pub const B_UPPER_A: u8 = 65;

pub const B_UPPER_Z: u8 = 90;

pub const B_ONE: u8 = 49;

pub const B_T: u8 = 116;

pub const B_R: u8 = 114;

pub const B_U: u8 = 117;

pub const B_E: u8 = 101;

/// A decimal digit byte.
pub open spec fn is_digit(b: u8) -> bool {
    B_D0 <= b <= B_D9
}

/// Every byte of `s` is a decimal digit.
pub open spec fn all_digits(s: Seq<u8>) -> bool {
    forall|i: int| 0 <= i < s.len() ==> is_digit(#[trigger] s[i])
}

/// The value of a digit string, most significant digit first.
pub open spec fn digits_value(s: Seq<u8>) -> int
    decreases s.len(),
{
    if s.len() == 0 {
        0
    } else {
        digits_value(s.drop_last()) * 10 + (s.last() - B_D0)
    }
}

/// The digit part of a number string: everything after an optional leading `+`.
pub open spec fn spec_digits(s: Seq<u8>) -> Seq<u8> {
    if s.len() > 0 && s[0] == B_PLUS {
        s.drop_first()
    } else {
        s
    }
}

/// What `str::parse::<u16>` accepts: an optional leading `+`, then one or
/// more decimal digits whose value fits in a `u16`.
pub open spec fn spec_parse_u16(s: Seq<u8>) -> Option<u16> {
    let digits = spec_digits(s);
    if digits.len() > 0 && all_digits(digits) && digits_value(digits) <= u16::MAX {
        Some(digits_value(digits) as u16)
    } else {
        None
    }
}

proof fn lemma_digits_value_nonneg(s: Seq<u8>)
    requires
        all_digits(s),
    ensures
        digits_value(s) >= 0,
    decreases s.len(),
{
    if s.len() > 0 {
        assert(all_digits(s.drop_last())) by {
            assert(forall|i: int|
                0 <= i < s.len() - 1 ==> is_digit(#[trigger] s.drop_last()[i]) == is_digit(s[i]));
        }
        lemma_digits_value_nonneg(s.drop_last());
    }
}

proof fn lemma_digits_value_prefix_le(s: Seq<u8>, i: int)
    requires
        all_digits(s),
        0 <= i <= s.len(),
    ensures
        digits_value(s.take(i)) <= digits_value(s),
    decreases s.len() - i,
{
    if i == s.len() {
        assert(s.take(i) =~= s);
    } else {
        assert(s.take(i + 1).drop_last() =~= s.take(i));
        assert(all_digits(s.take(i + 1))) by {
            assert(forall|j: int|
                0 <= j < i + 1 ==> is_digit(#[trigger] s.take(i + 1)[j]) == is_digit(s[j]));
        }
        assert(all_digits(s.take(i)));
        lemma_digits_value_nonneg(s.take(i));
        assert(digits_value(s.take(i + 1)) == digits_value(s.take(i)) * 10 + (s[i] - B_D0));
        lemma_digits_value_prefix_le(s, i + 1);
    }
}

/// Parse a decimal `u16` exactly as `str::parse::<u16>` does on the same
/// bytes: optional leading `+`, then only digits, rejecting empty strings
/// and values over `u16::MAX`.
pub fn parse_u16(s: &[u8]) -> (r: Option<u16>)
    ensures
        r == spec_parse_u16(s@),
{
    let len = s.len();
    let start: usize = if len > 0 && s[0] == B_PLUS {
        1
    } else {
        0
    };
    let ghost digits: Seq<u8> = s@.subrange(start as int, len as int);
    proof {
        if start == 1 {
            assert(digits =~= s@.drop_first());
        } else {
            assert(digits =~= s@);
        }
    }
    if start == len {
        return None;
    }
    let mut acc: u32 = 0;
    let mut i: usize = start;
    while i < len
        invariant
            start <= i <= len,
            len == s@.len(),
            start < len,
            digits == s@.subrange(start as int, len as int),
            digits == spec_digits(s@),
            all_digits(digits.take(i - start)),
            acc == digits_value(digits.take(i - start)),
            acc <= u16::MAX,
        decreases len - i,
    {
        let b = s[i];
        proof {
            assert(digits.take(i + 1 - start).drop_last() =~= digits.take(i - start));
            assert(digits.take(i + 1 - start).last() == s@[i as int]);
        }
        if b < B_D0 || b > B_D9 {
            proof {
                assert(digits[i - start] == b);
                assert(!all_digits(digits));
            }
            return None;
        }
        let d: u32 = (b - B_D0) as u32;
        let next: u32 = acc * 10 + d;
        if next > u16::MAX as u32 {
            proof {
                assert(all_digits(digits.take(i + 1 - start)));
                if all_digits(digits) {
                    lemma_digits_value_prefix_le(digits, i + 1 - start);
                    assert(digits_value(digits) > u16::MAX);
                }
            }
            return None;
        }
        acc = next;
        i = i + 1;
    }
    proof {
        assert(digits.take(len - start) =~= digits);
    }
    Some(acc as u16)
}

/// `b` lowered to its ASCII lower-case form.
pub open spec fn ascii_lower(b: u8) -> u8 {
    if B_UPPER_A <= b <= B_UPPER_Z {
        (b + 32) as u8
    } else {
        b
    }
}

/// The byte sequences are equal up to ASCII case.
pub open spec fn eq_ignore_ascii_case(s: Seq<u8>, t: Seq<u8>) -> bool {
    s.len() == t.len() && forall|i: int|
        0 <= i < s.len() ==> ascii_lower(#[trigger] s[i]) == ascii_lower(t[i])
}

/// The accepted spellings of an enabled preload flag: exactly `"1"`, or
/// `"true"` in any ASCII case.
pub open spec fn spec_preload_enabled(v: Seq<u8>) -> bool {
    v =~= seq![B_ONE] || eq_ignore_ascii_case(v, seq![B_T, B_R, B_U, B_E])
}

/// Decide the preload flag from the raw environment value's bytes.
pub fn preload_enabled(v: &[u8]) -> (r: bool)
    ensures
        r == spec_preload_enabled(v@),
{
    if v.len() == 1 && v[0] == B_ONE {
        proof {
            assert(v@ =~= seq![B_ONE]);
        }
        return true;
    }
    proof {
        assert(!(v@ =~= seq![B_ONE]));
    }
    if v.len() != 4 {
        return false;
    }
    let t: [u8; 4] = [B_T, B_R, B_U, B_E];
    let mut i: usize = 0;
    while i < 4
        invariant
            0 <= i <= 4,
            v@.len() == 4,
            t@ =~= seq![B_T, B_R, B_U, B_E],
            forall|j: int| 0 <= j < i ==> ascii_lower(#[trigger] v@[j]) == ascii_lower(t@[j]),
        decreases 4 - i,
    {
        let b = v[i];
        let lowered: u8 = if b >= B_UPPER_A && b <= B_UPPER_Z {
            b + 32
        } else {
            b
        };
        if lowered != t[i] {
            proof {
                assert(ascii_lower(t@[i as int]) == t@[i as int]);
                assert(ascii_lower(v@[i as int]) != ascii_lower(t@[i as int]));
            }
            return false;
        }
        proof {
            assert(ascii_lower(t@[i as int]) == t@[i as int]);
        }
        i = i + 1;
    }
    true
}

/// The text of an optional environment value, or `default` when unset.
pub open spec fn text_or(v: Option<String>, default: Seq<char>) -> Seq<char> {
    match v {
        Some(s) => s@,
        None => default,
    }
}

/// The port named by an optional environment value: its decimal value when
/// it parses as a `u16`, otherwise `default`.
pub open spec fn spec_port_value(v: Option<String>, default: u16) -> u16 {
    match v {
        Some(s) => match spec_parse_u16(vstd::utf8::encode_utf8(s@)) {
            Some(n) => n,
            None => default,
        },
        None => default,
    }
}

/// The preload flag named by an optional environment value; unset means
/// enabled.
pub open spec fn spec_preload_value(v: Option<String>) -> bool {
    match v {
        Some(s) => spec_preload_enabled(vstd::utf8::encode_utf8(s@)),
        None => true,
    }
}

/// Resolve an optional text value against its default.
fn resolve_text(v: Option<String>, default: &str) -> (r: String)
    ensures
        r@ == text_or(v, default@),
{
    match v {
        Some(s) => s,
        None => String::from_str(default),
    }
}

/// Resolve an optional port value against its default.
fn resolve_port(v: Option<String>, default: u16) -> (r: u16)
    ensures
        r == spec_port_value(v, default),
{
    match v {
        Some(s) => match parse_u16(s.as_str().as_bytes()) {
            Some(n) => n,
            None => default,
        },
        None => default,
    }
}

/// How to reach and launch the backend process: immutable after
/// construction and shared read-only across tasks.
#[derive(Clone)]
pub struct BackendConfig {
    /// The executable that serves the backend.
    pub command: String,
    /// Arguments handed to `command`.
    pub args: Vec<String>,
    /// Host the backend listens on.
    pub host: String,
    /// Port the backend listens on.
    pub port: u16,
    /// Seconds between health probes.
    pub health_check_interval_secs: u64,
    /// Seconds before a single probe is abandoned.
    pub health_check_timeout_secs: u64,
    /// How many reachability probes a fresh spawn is given before startup
    /// is declared failed.
    pub startup_retries: u64,
    /// Milliseconds between those probes.
    pub startup_backoff_ms: u64,
    /// Path probed for reachability.
    pub probe_path: String,
}

/// Raw environment values that describe the backend, each `None` when the
/// variable is unset.
pub struct BackendEnv {
    pub command: Option<String>,
    pub host: Option<String>,
    pub port: Option<String>,
}

impl BackendConfig {
    /// Build the backend description from raw environment values.
    ///
    /// `default_port` is the backend's own conventional port, used whenever
    /// the environment names none (or names one that does not parse).
    pub fn from_env(env: BackendEnv, default_port: u16) -> (r: BackendConfig)
        ensures
            r.command@ == text_or(env.command, "ollama"@),
            r.args@.len() == 1,
            r.args@[0]@ == "serve"@,
            r.host@ == text_or(env.host, "127.0.0.1"@),
            r.port == spec_port_value(env.port, default_port),
            r.health_check_interval_secs == 10,
            r.health_check_timeout_secs == 2,
            r.startup_retries == 30,
            r.startup_backoff_ms == 500,
            r.probe_path@ == "/"@,
    {
        let mut args: Vec<String> = Vec::new();
        args.push(String::from_str("serve"));
        BackendConfig {
            command: resolve_text(env.command, "ollama"),
            args,
            host: resolve_text(env.host, "127.0.0.1"),
            port: resolve_port(env.port, default_port),
            health_check_interval_secs: 10,
            health_check_timeout_secs: 2,
            startup_retries: 30,
            startup_backoff_ms: 500,
            probe_path: String::from_str("/"),
        }
    }
}

/// The gateway's whole configuration: bind address, upstream base URL,
/// default model, preload flag, and the embedded backend description.
pub struct Config {
    pub api_host: String,
    pub api_port: u16,
    pub ollama_url: String,
    pub model_name: String,
    pub preload: bool,
    pub backend: BackendConfig,
}

/// Raw environment values for the gateway itself, each `None` when the
/// variable is unset.
pub struct GatewayEnv {
    pub api_host: Option<String>,
    pub api_port: Option<String>,
    pub ollama_url: Option<String>,
    pub model_name: Option<String>,
    pub preload: Option<String>,
    pub backend: BackendEnv,
}

impl Config {
    /// Build the configuration from raw environment values, filling every
    /// unset or unparsable value with its documented default. The backend
    /// port falls back to the backend's conventional default, 11434,
    /// distinct from the gateway's own 7103.
    pub fn load(env: GatewayEnv) -> (r: Config)
        ensures
            r.api_host@ == text_or(env.api_host, "0.0.0.0"@),
            r.api_port == spec_port_value(env.api_port, 7103),
            r.ollama_url@ == text_or(env.ollama_url, "http://localhost:11434"@),
            r.model_name@ == text_or(env.model_name, "gemma3:27b"@),
            r.preload == spec_preload_value(env.preload),
            r.backend.command@ == text_or(env.backend.command, "ollama"@),
            r.backend.host@ == text_or(env.backend.host, "127.0.0.1"@),
            r.backend.port == spec_port_value(env.backend.port, 11434),
    {
        let preload = match env.preload {
            Some(s) => preload_enabled(s.as_str().as_bytes()),
            None => true,
        };
        Config {
            api_host: resolve_text(env.api_host, "0.0.0.0"),
            api_port: resolve_port(env.api_port, 7103),
            ollama_url: resolve_text(env.ollama_url, "http://localhost:11434"),
            model_name: resolve_text(env.model_name, "gemma3:27b"),
            preload,
            backend: BackendConfig::from_env(env.backend, 11434),
        }
    }
}

} // verus!
