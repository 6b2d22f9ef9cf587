//! Configuration validation: raw flag/environment text is checked and turned
//! into an immutable `Settings` value, or rejected with a `ConfigError`,
//! before any registry building, probing or serving work starts.
use vstd::prelude::*;

verus! {

use crate::Transport;

/// Default upstream base address: the production Resend endpoint.
pub fn default_base_url() -> (r: &'static str)
    ensures
        r@ == "https://api.resend.com"@,
{
    "https://api.resend.com"
}

/// Default bind address: loopback.
pub fn default_bind_address() -> (r: &'static str)
    ensures
        r@ == "127.0.0.1"@,
{
    "127.0.0.1"
}

/// Default bind port.
pub const DEFAULT_PORT: u16 = 8080;

/// Default transport text: the single-session local pipe.
pub fn default_transport_text() -> (r: &'static str)
    ensures
        r@ == "stdio"@,
{
    "stdio"
}

/// Well-formedness of a base-address string, as the URL parser decides it.
pub uninterp spec fn url_well_formed(s: Seq<char>) -> bool;

/// Relies on `url::Url::parse`: whether an address string parses is a
/// function of the string alone.
#[verifier::external_body]
pub(crate) fn base_url_parses(s: &str) -> (r: bool)
    ensures
        r == url_well_formed(s@),
{
    url::Url::parse(s).is_ok()
}

pub open spec fn is_digit_char(c: char) -> bool {
    '0' <= c && c <= '9'
}

pub open spec fn all_digits(s: Seq<char>) -> bool {
    forall|i: int| 0 <= i < s.len() ==> is_digit_char(s[i])
}

/// The number a string of decimal digits denotes, most significant first.
pub open spec fn digits_value(s: Seq<char>) -> int
    decreases s.len(),
{
    if s.len() == 0 {
        0
    } else {
        digits_value(s.drop_last()) * 10 + (s.last() as int - '0' as int)
    }
}

/// A port string: non-empty, digits only, value at most 65535.
pub open spec fn valid_port_text(s: Seq<char>) -> bool {
    s.len() > 0 && all_digits(s) && digits_value(s) <= u16::MAX
}

proof fn lemma_digits_value_nonneg(s: Seq<char>)
    requires
        all_digits(s),
    ensures
        digits_value(s) >= 0,
    decreases s.len(),
{
    if s.len() > 0 {
        assert(all_digits(s.drop_last())) by {
            assert(forall|i: int|
                0 <= i < s.drop_last().len() ==> s.drop_last()[i] == s[i]);
        }
        lemma_digits_value_nonneg(s.drop_last());
    }
}

proof fn lemma_digits_value_prefix_le(s: Seq<char>, i: int)
    requires
        all_digits(s),
        0 <= i <= s.len(),
    ensures
        digits_value(s.take(i)) <= digits_value(s),
    decreases s.len() - i,
{
    if i < s.len() {
        lemma_digits_value_prefix_le(s, i + 1);
        assert(s.take(i + 1).drop_last() =~= s.take(i));
        assert(all_digits(s.take(i))) by {
            assert(forall|j: int| 0 <= j < s.take(i).len() ==> s.take(i)[j] == s[j]);
        }
        lemma_digits_value_nonneg(s.take(i));
        assert(s.take(i + 1).last() == s[i]);
        assert(is_digit_char(s[i]));
        assert(digits_value(s.take(i + 1)) >= digits_value(s.take(i)));
    } else {
        assert(s.take(i) =~= s);
    }
}

/// Parses a port number from decimal text; rejects anything that is not a
/// non-empty digit string denoting a value at most 65535.
pub fn parse_port(s: &str) -> (r: Option<u16>)
    ensures
        r is Some <==> valid_port_text(s@),
        r matches Some(p) ==> p == digits_value(s@),
{
    let n = s.unicode_len();
    if n == 0 {
        return None;
    }
    let mut acc: u32 = 0;
    let mut i: usize = 0;
    while i < n
        invariant
            0 <= i <= n,
            n == s@.len(),
            all_digits(s@.take(i as int)),
            acc == digits_value(s@.take(i as int)),
            acc <= u16::MAX,
        decreases n - i,
    {
        let c = s.get_char(i);
        if c < '0' || c > '9' {
            assert(!all_digits(s@));
            return None;
        }
        let d: u32 = (c as u32) - ('0' as u32);
        proof {
            assert(s@.take(i + 1).drop_last() =~= s@.take(i as int));
            assert(s@.take(i + 1).last() == s@[i as int]);
        }
        let next: u32 = acc * 10 + d;
        assert(next == digits_value(s@.take(i + 1)));
        if next > 65535 {
            proof {
                if all_digits(s@) {
                    lemma_digits_value_prefix_le(s@, i + 1);
                }
            }
            return None;
        }
        assert(all_digits(s@.take(i + 1))) by {
            assert(forall|j: int|
                0 <= j < i ==> s@.take(i + 1)[j] == s@.take(i as int)[j]);
        }
        acc = next;
        i = i + 1;
    }
    proof {
        assert(s@.take(n as int) =~= s@);
    }
    Some(acc as u16)
}

/// The character a decimal digit prints as.
pub open spec fn dec_digit_char(d: int) -> char {
    if d == 0 {
        '0'
    } else if d == 1 {
        '1'
    } else if d == 2 {
        '2'
    } else if d == 3 {
        '3'
    } else if d == 4 {
        '4'
    } else if d == 5 {
        '5'
    } else if d == 6 {
        '6'
    } else if d == 7 {
        '7'
    } else if d == 8 {
        '8'
    } else {
        '9'
    }
}

/// The decimal text of a non-negative number, most significant digit
/// first, without leading zeros (zero itself prints as one digit).
pub open spec fn spec_dec_digits(n: int) -> Seq<char>
    decreases n,
{
    if n < 10 {
        seq![dec_digit_char(n)]
    } else {
        spec_dec_digits(n / 10).push(dec_digit_char(n % 10))
    }
}

fn digit_str(d: u16) -> (r: &'static str)
    requires
        d < 10,
    ensures
        r@ == seq![dec_digit_char(d as int)],
{
    proof {
        reveal_strlit("0");
        reveal_strlit("1");
        reveal_strlit("2");
        reveal_strlit("3");
        reveal_strlit("4");
        reveal_strlit("5");
        reveal_strlit("6");
        reveal_strlit("7");
        reveal_strlit("8");
        reveal_strlit("9");
    }
    let r = match d {
        0 => "0",
        1 => "1",
        2 => "2",
        3 => "3",
        4 => "4",
        5 => "5",
        6 => "6",
        7 => "7",
        8 => "8",
        _ => "9",
    };
    proof {
        assert(r@ =~= seq![dec_digit_char(d as int)]);
    }
    r
}

fn push_u16(n: u16, out: &mut String)
    ensures
        final(out)@ == old(out)@ + spec_dec_digits(n as int),
    decreases n,
{
    if n < 10 {
        out.append(digit_str(n));
        proof {
            assert(final(out)@ =~= old(out)@ + spec_dec_digits(n as int));
        }
    } else {
        push_u16(n / 10, out);
        out.append(digit_str(n % 10));
        proof {
            assert(final(out)@ =~= old(out)@ + spec_dec_digits(n as int));
        }
    }
}

/// Prints a port number as decimal text.
pub fn port_to_text(port: u16) -> (r: String)
    ensures
        r@ == spec_dec_digits(port as int),
{
    let mut out = String::new();
    push_u16(port, &mut out);
    proof {
        assert(out@ =~= spec_dec_digits(port as int));
    }
    out
}

/// The listener address the network transport binds: `address:port`.
pub fn bind_address_text(address: &str, port: u16) -> (r: String)
    ensures
        r@ == address@ + ":"@ + spec_dec_digits(port as int),
{
    let mut out = String::from_str(address);
    out.append(":");
    push_u16(port, &mut out);
    proof {
        assert(out@ =~= address@ + ":"@ + spec_dec_digits(port as int));
    }
    out
}

/// Printing a port and parsing it back is the identity: the printed text
/// is a valid port text and denotes the same number.
pub proof fn lemma_port_text_round_trip(n: int)
    requires
        0 <= n <= u16::MAX,
    ensures
        valid_port_text(spec_dec_digits(n)),
        digits_value(spec_dec_digits(n)) == n,
    decreases n,
{
    if n < 10 {
        assert(dec_digit_char(n) as int - '0' as int == n);
        let s = spec_dec_digits(n);
        assert(s =~= seq![dec_digit_char(n)]);
        assert(s.drop_last() =~= Seq::<char>::empty());
        assert(digits_value(s.drop_last()) == 0);
        assert(s.last() == dec_digit_char(n));
        assert(digits_value(s) == digits_value(s.drop_last()) * 10 + (s.last() as int
            - '0' as int));
        assert(digits_value(s) == n);
        assert(all_digits(s));
    } else {
        lemma_port_text_round_trip(n / 10);
        let s = spec_dec_digits(n);
        let p = spec_dec_digits(n / 10);
        assert(s =~= p.push(dec_digit_char(n % 10)));
        assert(s.drop_last() =~= p);
        assert(s.last() == dec_digit_char(n % 10));
        assert(digits_value(s) == digits_value(p) * 10 + n % 10);
        assert(digits_value(s) == (n / 10) * 10 + n % 10);
        assert(digits_value(s) == n);
        assert(all_digits(s)) by {
            assert(forall|i: int| 0 <= i < p.len() ==> s[i] == p[i]);
            assert(is_digit_char(s[s.len() - 1]));
        }
    }
}

/// Character-by-character string equality, with equality of the views as
/// its meaning.
pub fn str_eq(a: &str, b: &str) -> (r: bool)
    ensures
        r == (a@ == b@),
{
    let n = a.unicode_len();
    let m = b.unicode_len();
    if n != m {
        return false;
    }
    let mut i: usize = 0;
    while i < n
        invariant
            0 <= i <= n,
            n == a@.len(),
            n == b@.len(),
            forall|j: int| 0 <= j < i ==> a@[j] == b@[j],
        decreases n - i,
    {
        let ca = a.get_char(i);
        let cb = b.get_char(i);
        if ca != cb {
            return false;
        }
        i = i + 1;
    }
    proof {
        assert(a@ =~= b@);
    }
    true
}

/// The two recognised transport spellings.
pub open spec fn valid_transport_text(s: Seq<char>) -> bool {
    s == "stdio"@ || s == "http"@
}

/// Parses the transport kind from its configuration spelling.
pub fn parse_transport(s: &str) -> (r: Option<Transport>)
    ensures
        s@ == "stdio"@ ==> r == Some(Transport::Stdio),
        s@ == "http"@ ==> r == Some(Transport::Http),
        r is Some <==> valid_transport_text(s@),
{
    proof {
        reveal_strlit("stdio");
        reveal_strlit("http");
        assert("stdio"@.len() == 5);
        assert("http"@.len() == 4);
    }
    if str_eq(s, "stdio") {
        Some(Transport::Stdio)
    } else if str_eq(s, "http") {
        Some(Transport::Http)
    } else {
        None
    }
}

/// Raw configuration sources, as read from flags or the environment, with
/// defaults already substituted for absent optional values.
pub struct RawConfig {
    pub api_key: String,
    pub base_url: String,
    pub bind_address: String,
    pub port: String,
    pub transport: String,
    pub no_health_check: bool,
}

/// Validated, immutable runtime settings; constructed exactly once at
/// startup by `validate`.
#[derive(Debug)]
pub struct Settings {
    pub api_key: String,
    pub base_url: String,
    pub bind_address: String,
    pub port: u16,
    pub transport: Transport,
    pub health_check: bool,
}

impl Settings {
    /// The settings invariant: the credential is non-empty and the base
    /// address is a well-formed URL.
    pub open spec fn wf(self) -> bool {
        self.api_key@.len() > 0 && url_well_formed(self.base_url@)
    }
}

/// A fatal configuration fault; the process must exit non-zero on any of
/// these before any serving work.
#[derive(Clone, Copy, Debug, PartialEq, Eq, Structural)]
pub enum ConfigError {
    MissingApiKey,
    InvalidTransport,
    InvalidPort,
    InvalidBaseUrl,
}

impl ConfigError {
    /// The user-visible diagnostic for this fault.
    pub fn diagnostic(&self) -> (r: &'static str)
        ensures
            *self == ConfigError::MissingApiKey ==> r@ == "Error: --api-key or RESEND_API_KEY cannot be empty"@,
            *self == ConfigError::InvalidTransport ==> r@ == "Error: transport must be 'stdio' or 'http'"@,
            *self == ConfigError::InvalidPort ==> r@ == "Error: port must be a number between 0 and 65535"@,
            *self == ConfigError::InvalidBaseUrl ==> r@ == "Error: base URL is not a valid URL"@,
    {
        match self {
            ConfigError::MissingApiKey => "Error: --api-key or RESEND_API_KEY cannot be empty",
            ConfigError::InvalidTransport => "Error: transport must be 'stdio' or 'http'",
            ConfigError::InvalidPort => "Error: port must be a number between 0 and 65535",
            ConfigError::InvalidBaseUrl => "Error: base URL is not a valid URL",
        }
    }
}

/// Checks the raw configuration and produces validated settings, or the
/// first fault in source order: transport and port (flag parsing), then
/// the credential, then the base address.
pub fn validate(raw: RawConfig) -> (r: Result<Settings, ConfigError>)
    ensures
        r is Ok <==> (valid_transport_text(raw.transport@) && valid_port_text(raw.port@)
            && raw.api_key@.len() > 0 && url_well_formed(raw.base_url@)),
        r matches Ok(s) ==> {
            &&& s.wf()
            &&& s.api_key == raw.api_key
            &&& s.base_url == raw.base_url
            &&& s.bind_address == raw.bind_address
            &&& s.port == digits_value(raw.port@)
            &&& (raw.transport@ == "stdio"@ ==> s.transport == Transport::Stdio)
            &&& (raw.transport@ == "http"@ ==> s.transport == Transport::Http)
            &&& s.health_check == !raw.no_health_check
        },
        r == Err::<Settings, ConfigError>(ConfigError::InvalidTransport) <==> !valid_transport_text(
            raw.transport@,
        ),
        r == Err::<Settings, ConfigError>(ConfigError::InvalidPort) <==> (valid_transport_text(
            raw.transport@,
        ) && !valid_port_text(raw.port@)),
        r == Err::<Settings, ConfigError>(ConfigError::MissingApiKey) <==> (valid_transport_text(
            raw.transport@,
        ) && valid_port_text(raw.port@) && raw.api_key@.len() == 0),
        r == Err::<Settings, ConfigError>(ConfigError::InvalidBaseUrl) <==> (valid_transport_text(
            raw.transport@,
        ) && valid_port_text(raw.port@) && raw.api_key@.len() > 0 && !url_well_formed(
            raw.base_url@,
        )),
{
    let transport = match parse_transport(raw.transport.as_str()) {
        Some(t) => t,
        None => {
            return Err(ConfigError::InvalidTransport);
        },
    };
    let port = match parse_port(raw.port.as_str()) {
        Some(p) => p,
        None => {
            return Err(ConfigError::InvalidPort);
        },
    };
    if raw.api_key.as_str().is_empty() {
        return Err(ConfigError::MissingApiKey);
    }
    if !base_url_parses(raw.base_url.as_str()) {
        return Err(ConfigError::InvalidBaseUrl);
    }
    Ok(Settings {
        api_key: raw.api_key,
        base_url: raw.base_url,
        bind_address: raw.bind_address,
        port,
        transport,
        health_check: !raw.no_health_check,
    })
}

} // verus!
