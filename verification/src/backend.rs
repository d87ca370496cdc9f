//! Decisions around the companion service: where it listens, which ports
//! to try, whether it is started at all, and what its executable may be
//! called. Spawning it, probing ports and reading the environment are the
//! caller's part.

use vstd::prelude::*;
use vstd::string::StringExecFns;

verus! {

/// Where the companion service listens.
#[derive(Clone, Debug, PartialEq, Eq)]
pub struct BackendEndpoint {
    pub host: String,
    pub port: u16,
}

/// The setting that switches the start of the service on or off.
pub const AUTOSTART_SETTING: &'static str = "WHALEWHISPER_BACKEND_AUTOSTART";

/// The setting that names the directory the service keeps its data in.
pub const DATA_DIR_SETTING: &'static str = "WHALEWHISPER_BACKEND_DATA_DIR";

/// The setting that names the host the service binds to.
pub const HOST_SETTING: &'static str = "WHALEWHISPER_BACKEND_HOST";

/// The setting that fixes the port the service listens on.
pub const PORT_SETTING: &'static str = "WHALEWHISPER_BACKEND_PORT";

/// The host the service binds to unless the environment names another.
pub const DEFAULT_BACKEND_HOST: &'static str = "127.0.0.1";

/// The first port tried unless the environment names one.
pub const DEFAULT_BACKEND_PORT: u16 = 8090;

/// How many consecutive ports are tried.
pub const BACKEND_PORT_ATTEMPTS: u16 = 3;

/// The character for a decimal digit.
pub open spec fn spec_digit(d: int) -> char {
    if d == 0 {
        '0'
    } else if d == 1 {
        '1'
    } else if d == 2 {
        '2'
    } else if d == 3 {
        '3'
    } else if d == 4 {
        '4'
    } else if d == 5 {
        '5'
    } else if d == 6 {
        '6'
    } else if d == 7 {
        '7'
    } else if d == 8 {
        '8'
    } else {
        '9'
    }
}

/// A number in decimal, without sign or leading zeros.
pub open spec fn spec_decimal(n: nat) -> Seq<char>
    decreases n,
{
    if n < 10 {
        seq![spec_digit(n as int)]
    } else {
        spec_decimal(n / 10).push(spec_digit((n % 10) as int))
    }
}

fn digit_text(d: u16) -> (text: &'static str)
    requires
        d < 10,
    ensures
        text@ == seq![spec_digit(d as int)],
{
    proof {
        reveal_strlit("0");
        reveal_strlit("1");
        reveal_strlit("2");
        reveal_strlit("3");
        reveal_strlit("4");
        reveal_strlit("5");
        reveal_strlit("6");
        reveal_strlit("7");
        reveal_strlit("8");
        reveal_strlit("9");
    }
    let text = if d == 0 {
        "0"
    } else if d == 1 {
        "1"
    } else if d == 2 {
        "2"
    } else if d == 3 {
        "3"
    } else if d == 4 {
        "4"
    } else if d == 5 {
        "5"
    } else if d == 6 {
        "6"
    } else if d == 7 {
        "7"
    } else if d == 8 {
        "8"
    } else {
        "9"
    };
    text
}

/// Writes a port number in decimal.
pub fn port_text(port: u16) -> (text: String)
    ensures
        text@ == spec_decimal(port as nat),
    decreases port,
{
    if port < 10 {
        String::from_str(digit_text(port))
    } else {
        let mut text = port_text(port / 10);
        text.append(digit_text(port % 10));
        text
    }
}

/// The lowercase form of a text, as `str::to_lowercase` gives it.
pub uninterp spec fn spec_lowercase(text: Seq<char>) -> Seq<char>;

/// Calls `str::to_lowercase`. The conversion follows the Unicode
/// character database and depends on the text alone; the contract gives
/// its result a name and claims nothing else of it.
#[verifier::external_body]
fn lowercase(text: &str) -> (lowered: String)
    ensures
        lowered@ == spec_lowercase(text@),
{
    text.to_lowercase()
}

/// Whether a character is one of `0` to `9`.
pub open spec fn spec_is_digit(c: char) -> bool {
    c == '0' || c == '1' || c == '2' || c == '3' || c == '4' || c == '5' || c == '6' || c == '7'
        || c == '8' || c == '9'
}

/// The number a decimal digit stands for; zero for any other character.
pub open spec fn spec_digit_value(c: char) -> nat {
    if c == '1' {
        1
    } else if c == '2' {
        2
    } else if c == '3' {
        3
    } else if c == '4' {
        4
    } else if c == '5' {
        5
    } else if c == '6' {
        6
    } else if c == '7' {
        7
    } else if c == '8' {
        8
    } else if c == '9' {
        9
    } else {
        0
    }
}

/// Whether every character of a text is a decimal digit.
pub open spec fn spec_all_digits(text: Seq<char>) -> bool {
    forall|i: int| 0 <= i < text.len() ==> spec_is_digit(#[trigger] text[i])
}

/// The number a run of decimal digits spells.
pub open spec fn spec_digits_value(digits: Seq<char>) -> nat
    decreases digits.len(),
{
    if digits.len() == 0 {
        0
    } else {
        spec_digits_value(digits.drop_last()) * 10 + spec_digit_value(digits.last())
    }
}

/// The port a text spells: the text is one or more decimal digits, with
/// or without a `+` before them, and the number is no larger than the
/// highest port number. Any other text spells none.
pub open spec fn spec_parse_port(text: Seq<char>) -> Option<u16> {
    let digits = if text.len() > 0 && text[0] == '+' {
        text.skip(1)
    } else {
        text
    };
    if digits.len() > 0 && spec_all_digits(digits) && spec_digits_value(digits) <= u16::MAX {
        Some(spec_digits_value(digits) as u16)
    } else {
        None
    }
}

/// A run of digits spells a number no smaller than any of its prefixes
/// does.
proof fn lemma_digits_value_grows(digits: Seq<char>, k: int)
    requires
        0 <= k <= digits.len(),
    ensures
        spec_digits_value(digits.take(k)) <= spec_digits_value(digits),
    decreases digits.len(),
{
    if k == digits.len() {
        assert(digits.take(k) =~= digits);
    } else {
        lemma_digits_value_grows(digits.drop_last(), k);
        assert(digits.drop_last().take(k) =~= digits.take(k));
    }
}

fn digit_value(c: char) -> (value: Option<u32>)
    ensures
        value is Some <==> spec_is_digit(c),
        value matches Some(v) ==> v == spec_digit_value(c),
{
    if c == '0' {
        Some(0)
    } else if c == '1' {
        Some(1)
    } else if c == '2' {
        Some(2)
    } else if c == '3' {
        Some(3)
    } else if c == '4' {
        Some(4)
    } else if c == '5' {
        Some(5)
    } else if c == '6' {
        Some(6)
    } else if c == '7' {
        Some(7)
    } else if c == '8' {
        Some(8)
    } else if c == '9' {
        Some(9)
    } else {
        None
    }
}

/// Reads a port number from a text.
pub fn parse_port(text: &str) -> (port: Option<u16>)
    ensures
        port == spec_parse_port(text@),
{
    let len = text.unicode_len();
    let mut i: usize = 0;
    if len > 0 && text.get_char(0) == '+' {
        i = 1;
    }
    let start = i;
    let ghost digits = if text@.len() > 0 && text@[0] == '+' {
        text@.skip(1)
    } else {
        text@
    };
    if start == len {
        return None;
    }
    let mut value: u32 = 0;
    while i < len
        invariant
            start <= i <= len,
            len == text@.len(),
            digits == text@.subrange(start as int, len as int),
            digits == if text@.len() > 0 && text@[0] == '+' {
                text@.skip(1)
            } else {
                text@
            },
            value <= u16::MAX,
            spec_all_digits(digits.take(i - start)),
            value == spec_digits_value(digits.take(i - start)),
        decreases len - i,
    {
        let c = text.get_char(i);
        let next = match digit_value(c) {
            Some(d) => value * 10 + d,
            None => {
                assert(!spec_is_digit(digits[i - start]));
                return None;
            },
        };
        proof {
            let seen = digits.take(i - start + 1);
            assert(seen.drop_last() =~= digits.take(i - start));
            lemma_digits_value_grows(digits, i - start + 1);
            assert forall|j: int| 0 <= j < seen.len() implies spec_is_digit(#[trigger] seen[j]) by {
                if j < i - start {
                    assert(seen[j] == digits.take(i - start)[j]);
                }
            }
        }
        if next > u16::MAX as u32 {
            return None;
        }
        value = next;
        i = i + 1;
    }
    assert(digits.take(i - start) =~= digits);
    Some(value as u16)
}

/// Whether a lowercased setting says yes: it is `1`, `true` or `yes`.
pub open spec fn spec_is_truthy(lowered: Seq<char>) -> bool {
    lowered == "1"@ || lowered == "true"@ || lowered == "yes"@
}

/// Whether a setting that may be absent is switched on: absent, it takes
/// the default; present, it is on exactly when its lowercase form says
/// yes.
pub open spec fn spec_flag_enabled(value: Option<Seq<char>>, default: bool) -> bool {
    match value {
        Some(text) => spec_is_truthy(spec_lowercase(text)),
        None => default,
    }
}

/// Reports whether a setting, already in lowercase, says yes.
pub fn is_truthy(lowered: &str) -> (truthy: bool)
    ensures
        truthy == spec_is_truthy(lowered@),
{
    let text = lowered.to_owned();
    text == "1".to_owned() || text == "true".to_owned() || text == "yes".to_owned()
}

/// Reports whether a setting that may be absent is switched on.
pub fn flag_enabled(value: Option<&str>, default: bool) -> (enabled: bool)
    ensures
        enabled == spec_flag_enabled(
            match value {
                Some(text) => Some(text@),
                None => None,
            },
            default,
        ),
{
    match value {
        Some(text) => {
            let lowered = lowercase(text);
            is_truthy(lowered.as_str())
        },
        None => default,
    }
}

/// Reports whether the companion service is started with the
/// application. The autostart setting decides where it is present; where
/// it is absent the service is started in release builds only.
pub fn backend_autostart(value: Option<&str>, debug_build: bool) -> (autostart: bool)
    ensures
        autostart == spec_flag_enabled(
            match value {
                Some(text) => Some(text@),
                None => None,
            },
            !debug_build,
        ),
{
    flag_enabled(value, !debug_build)
}

/// The host the service binds to: the configured one, the default
/// otherwise.
pub fn backend_host(value: Option<String>) -> (host: String)
    ensures
        host@ == match value {
            Some(text) => text@,
            None => DEFAULT_BACKEND_HOST@,
        },
{
    match value {
        Some(text) => text,
        None => String::from_str(DEFAULT_BACKEND_HOST),
    }
}

/// The port the environment fixes for the service, if the port setting
/// is present and spells one.
pub fn configured_port(value: Option<&str>) -> (port: Option<u16>)
    ensures
        port == match value {
            Some(text) => spec_parse_port(text@),
            None => None,
        },
{
    match value {
        Some(text) => parse_port(text),
        None => None,
    }
}

/// The `offset`-th port after `base_port`, held at the highest port
/// number.
pub open spec fn spec_candidate_port(base_port: u16, offset: u16) -> u16 {
    if base_port + offset > u16::MAX {
        u16::MAX
    } else {
        (base_port + offset) as u16
    }
}

/// The search for a free port: `attempts` consecutive ports from
/// `base_port` on, each handed out once, in order.
#[derive(Clone, Copy, Debug, PartialEq, Eq)]
pub struct PortScan {
    pub base_port: u16,
    pub attempts: u16,
    /// How many candidates have been handed out.
    pub tried: u16,
}

impl PortScan {
    /// The last port the search reaches: `base_port + attempts - 1`, held
    /// at the highest port number; `base_port` itself for no attempts.
    pub open spec fn spec_last_port(self) -> u16 {
        spec_candidate_port(
            self.base_port,
            if self.attempts == 0 {
                0u16
            } else {
                (self.attempts - 1) as u16
            },
        )
    }

    /// A search that has handed out nothing yet.
    pub fn new(base_port: u16, attempts: u16) -> (scan: PortScan)
        ensures
            scan == (PortScan { base_port, attempts, tried: 0 }),
    {
        PortScan { base_port, attempts, tried: 0 }
    }

    /// Hands out the next port to probe, or `None` once every attempt
    /// has been used.
    pub fn next_port(&mut self) -> (port: Option<u16>)
        ensures
            old(self).tried < old(self).attempts ==> port == Some(
                spec_candidate_port(old(self).base_port, old(self).tried),
            ) && *final(self) == (PortScan { tried: (old(self).tried + 1) as u16, ..*old(self) }),
            old(self).tried >= old(self).attempts ==> port is None && *final(self) == *old(self),
    {
        if self.tried < self.attempts {
            let port = self.base_port.saturating_add(self.tried);
            self.tried = self.tried + 1;
            Some(port)
        } else {
            None
        }
    }

    /// Whether the port handed out last was a fallback, not the first
    /// choice.
    pub fn is_fallback(&self) -> (fallback: bool)
        ensures
            fallback == (self.tried > 1),
    {
        self.tried > 1
    }

    /// The last port the search reaches.
    pub fn last_port(&self) -> (port: u16)
        ensures
            port == self.spec_last_port(),
    {
        self.base_port.saturating_add(self.attempts.saturating_sub(1))
    }
}

/// The log line for a service that could not have its first port.
pub open spec fn spec_fallback_notice(base_port: u16, port: u16) -> Seq<char> {
    "backend port "@ + spec_decimal(base_port as nat) + " in use; fallback to "@ + spec_decimal(
        port as nat,
    )
}

/// The error for a search that found no free port, up to the cause.
pub open spec fn spec_exhausted_notice(base_port: u16, last_port: u16) -> Seq<char> {
    "no available backend port in "@ + spec_decimal(base_port as nat) + "-"@ + spec_decimal(
        last_port as nat,
    )
}

/// Writes the log line for a service that could not have its first port.
pub fn fallback_notice(base_port: u16, port: u16) -> (text: String)
    ensures
        text@ == spec_fallback_notice(base_port, port),
{
    let mut text = String::from_str("backend port ");
    text.append(port_text(base_port).as_str());
    text.append(" in use; fallback to ");
    text.append(port_text(port).as_str());
    text
}

/// Writes the error for a search that found no free port, up to the
/// cause.
pub fn exhausted_notice(scan: &PortScan) -> (text: String)
    ensures
        text@ == spec_exhausted_notice(scan.base_port, scan.spec_last_port()),
{
    let mut text = String::from_str("no available backend port in ");
    text.append(port_text(scan.base_port).as_str());
    text.append("-");
    text.append(port_text(scan.last_port()).as_str());
    text
}

/// The name the service's executable has when it carries no target
/// triple.
pub const SIDECAR_NAME: &'static str = "whalewhisper-backend";

/// The name the service's executable has for the target `triple`.
pub open spec fn spec_sidecar_name(triple: Seq<char>) -> Seq<char> {
    "whalewhisper-backend-"@ + triple
}

/// The names under which the service's executable is looked for, in
/// order: the name for the triple the application was built for, the
/// name for the triple the environment gives unless it is that same
/// name, and the bare name.
pub open spec fn spec_sidecar_names(
    build_triple: Option<Seq<char>>,
    env_triple: Option<Seq<char>>,
) -> Seq<Seq<char>> {
    let built = match build_triple {
        Some(triple) => seq![spec_sidecar_name(triple)],
        None => Seq::empty(),
    };
    let both = match env_triple {
        Some(triple) => if build_triple matches Some(b) && spec_sidecar_name(b)
            == spec_sidecar_name(triple) {
            built
        } else {
            built.push(spec_sidecar_name(triple))
        },
        None => built,
    };
    both.push(SIDECAR_NAME@)
}

fn sidecar_name(triple: &str) -> (name: String)
    ensures
        name@ == spec_sidecar_name(triple@),
{
    let mut name = String::from_str("whalewhisper-backend-");
    name.append(triple);
    name
}

/// Lists the names under which the service's executable is looked for.
pub fn sidecar_names(build_triple: Option<&str>, env_triple: Option<&str>) -> (names: Vec<String>)
    ensures
        names.deep_view() == spec_sidecar_names(
            match build_triple {
                Some(triple) => Some(triple@),
                None => None,
            },
            match env_triple {
                Some(triple) => Some(triple@),
                None => None,
            },
        ),
{
    let mut names: Vec<String> = Vec::new();
    if let Some(triple) = build_triple {
        names.push(sidecar_name(triple));
    }
    if let Some(triple) = env_triple {
        let name = sidecar_name(triple);
        let known = names.len() == 1 && names[0] == name;
        if !known {
            names.push(name);
        }
    }
    names.push(String::from_str(SIDECAR_NAME));
    names
}

} // verus!
