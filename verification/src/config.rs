//! The validated scan configuration the scheduler consumes, and the naming
//! of capture files. The unverified shell parses the command line, resolves
//! the target host and the default output prefix, and hands the plain
//! values here; construction enforces the one semantic requirement, a
//! positive worker budget.

use vstd::prelude::*;
use vstd::arithmetic::div_mod::lemma_fundamental_div_mod;
use vstd::string::StrSliceExecFns;
use vstd::string::StringExecFns;

verus! {

/// Worker budget used when none is requested.
pub const DEFAULT_MAX_THREADS: u8 = 8;

/// First port of the default scan range (common RTP media ports).
pub const RTP_PORT_RANGE_START: u16 = 16384;

/// Last port of the default scan range.
pub const RTP_PORT_RANGE_END: u16 = 32767;

/// Why a configuration was rejected.
#[derive(Clone, Copy, PartialEq, Eq, Structural, Debug)]
pub enum ConfigError {
    /// The worker budget was zero; at least one concurrent probe is needed.
    ZeroWorkers,
}

/// A validated scan configuration: immutable once built, duplicated
/// read-only into every probe.
pub struct ScanConfig {
    /// Target host, as the textual address the shell resolved.
    pub host: String,
    /// First port of the range to scan.
    pub port_start: u16,
    /// Last port of the range to scan; the range probed is the inclusive
    /// [port_start, port_end], so equal bounds scan exactly one port.
    pub port_end: u16,
    /// Worker budget: the most probes ever running at once.
    pub max_threads: u8,
    /// Prefix of every capture file written by this run.
    pub output_file: String,
}

impl ScanConfig {
    /// The configuration invariant: the worker budget is positive.
    pub open spec fn wf(self) -> bool {
        self.max_threads >= 1
    }

    /// Build a configuration from plain values. Succeeds exactly when the
    /// worker budget is positive; the port bounds are taken as given (an
    /// inverted range simply scans nothing).
    pub fn new(host: String, port_start: u16, port_end: u16, max_threads: u8, output_file: String)
        -> (r: Result<ScanConfig, ConfigError>)
        ensures
            r is Ok <==> max_threads >= 1,
            r matches Ok(c) ==> c.wf() && c.host@ == host@ && c.port_start == port_start
                && c.port_end == port_end && c.max_threads == max_threads && c.output_file@
                == output_file@,
            r matches Err(e) ==> e is ZeroWorkers,
    {
        if max_threads == 0 {
            Err(ConfigError::ZeroWorkers)
        } else {
            Ok(
                ScanConfig {
                    host,
                    port_start,
                    port_end,
                    max_threads,
                    output_file,
                },
            )
        }
    }
}

/// The character for one decimal digit value.
pub open spec fn decimal_digit(d: nat) -> char {
    if d == 0 {
        '0'
    } else if d == 1 {
        '1'
    } else if d == 2 {
        '2'
    } else if d == 3 {
        '3'
    } else if d == 4 {
        '4'
    } else if d == 5 {
        '5'
    } else if d == 6 {
        '6'
    } else if d == 7 {
        '7'
    } else if d == 8 {
        '8'
    } else {
        '9'
    }
}

/// The decimal representation of a number: its digits in order, with no
/// sign and no leading zero (a single '0' for zero itself).
pub open spec fn decimal_rep(n: nat) -> Seq<char>
    decreases n,
{
    if n < 10 {
        seq![decimal_digit(n)]
    } else {
        decimal_rep(n / 10).push(decimal_digit(n % 10))
    }
}

/// The name of the capture file for one port:
/// `<prefix>-<port>.raw`, the port in decimal.
pub open spec fn capture_file_name(prefix: Seq<char>, port: u16) -> Seq<char> {
    prefix + "-"@ + decimal_rep(port as nat) + ".raw"@
}

/// The one-character string for a digit value.
fn digit_str(d: u8) -> (s: &'static str)
    requires
        d < 10,
    ensures
        s@ == seq![decimal_digit(d as nat)],
{
    proof {
        reveal_strlit("0");
        reveal_strlit("1");
        reveal_strlit("2");
        reveal_strlit("3");
        reveal_strlit("4");
        reveal_strlit("5");
        reveal_strlit("6");
        reveal_strlit("7");
        reveal_strlit("8");
        reveal_strlit("9");
    }
    if d == 0 {
        "0"
    } else if d == 1 {
        "1"
    } else if d == 2 {
        "2"
    } else if d == 3 {
        "3"
    } else if d == 4 {
        "4"
    } else if d == 5 {
        "5"
    } else if d == 6 {
        "6"
    } else if d == 7 {
        "7"
    } else if d == 8 {
        "8"
    } else {
        "9"
    }
}

/// Format a port number in decimal.
pub fn u16_to_decimal(n: u16) -> (s: String)
    ensures
        s@ == decimal_rep(n as nat),
    decreases n,
{
    if n < 10 {
        String::from_str(digit_str(n as u8))
    } else {
        let mut s = u16_to_decimal(n / 10);
        s.append(digit_str((n % 10) as u8));
        proof {
            assert(decimal_rep((n / 10) as nat) + seq![decimal_digit((n % 10) as nat)]
                =~= decimal_rep((n / 10) as nat).push(decimal_digit((n % 10) as nat)));
        }
        s
    }
}

/// Whether a character is a decimal digit.
pub open spec fn is_digit_char(c: char) -> bool {
    48 <= c as int <= 57
}

/// The numeric value of one digit character; zero for any other character.
pub open spec fn digit_char_val(c: char) -> nat {
    (c as int - 48) as nat
}

/// The number a string of digits denotes, read most significant first.
pub open spec fn str_value(s: Seq<char>) -> nat
    decreases s.len(),
{
    if s.len() == 0 {
        0
    } else {
        str_value(s.drop_last()) * 10 + digit_char_val(s.last())
    }
}

/// Whether a string denotes a port: non-empty, all digits, value at most
/// 65535.
pub open spec fn is_port_digits(s: Seq<char>) -> bool {
    &&& s.len() >= 1
    &&& forall|k: int| 0 <= k < s.len() ==> is_digit_char(#[trigger] s[k])
    &&& str_value(s) <= 65535
}

/// A prefix of a digit string never denotes more than the whole string.
proof fn lemma_str_value_prefix_le(s: Seq<char>, i: int)
    requires
        0 <= i <= s.len(),
    ensures
        str_value(s.subrange(0, i)) <= str_value(s),
    decreases s.len() - i,
{
    if i == s.len() {
        assert(s.subrange(0, i) =~= s);
    } else {
        lemma_str_value_prefix_le(s, i + 1);
        assert(s.subrange(0, i + 1).drop_last() =~= s.subrange(0, i));
        assert(str_value(s.subrange(0, i + 1)) == str_value(s.subrange(0, i)) * 10
            + digit_char_val(s.subrange(0, i + 1).last()));
    }
}

/// Parse a decimal port number. Returns the denoted value exactly when the
/// string is non-empty, contains only digits, and denotes at most 65535;
/// returns nothing otherwise.
pub fn parse_u16(s: &str) -> (r: Option<u16>)
    ensures
        r is Some <==> is_port_digits(s@),
        r matches Some(v) ==> v as nat == str_value(s@),
{
    let len = s.unicode_len();
    if len == 0 {
        return None;
    }
    let mut i: usize = 0;
    let mut acc: u32 = 0;
    while i < len
        invariant
            i <= len,
            len == s@.len(),
            forall|k: int| 0 <= k < i ==> is_digit_char(#[trigger] s@[k]),
            acc == str_value(s@.subrange(0, i as int)),
            acc <= 65535,
        decreases len - i,
    {
        let c = s.get_char(i);
        let u = c as u32;
        if u < 48 || u > 57 {
            return None;
        }
        proof {
            assert(s@.subrange(0, i + 1).drop_last() =~= s@.subrange(0, i as int));
        }
        acc = acc * 10 + (u - 48);
        i += 1;
        if acc > 65535 {
            proof {
                lemma_str_value_prefix_le(s@, i as int);
            }
            return None;
        }
    }
    proof {
        assert(s@.subrange(0, len as int) =~= s@);
    }
    Some(acc as u16)
}

/// Parse the port argument: either one port, giving a range with both
/// bounds equal, or two ports joined by a single dash. Any other shape —
/// no digits, a value over 65535, more than one dash — is rejected.
pub fn parse_port_spec(s: &str) -> (r: Option<(u16, u16)>)
    ensures
        (forall|k: int| 0 <= k < s@.len() ==> #[trigger] s@[k] != '-') ==> ((r is Some
            <==> is_port_digits(s@)) && (r matches Some(p) ==> p.0 as nat == str_value(s@) && p.1
            == p.0)),
        forall|d: int|
            (0 <= d < s@.len() && #[trigger] s@[d] == '-' && (forall|k: int|
                0 <= k < s@.len() && k != d ==> #[trigger] s@[k] != '-')) ==> ((r is Some <==> (
            is_port_digits(s@.subrange(0, d)) && is_port_digits(
                s@.subrange(d + 1, s@.len() as int),
            ))) && (r matches Some(p) ==> p.0 as nat == str_value(s@.subrange(0, d)) && p.1 as nat
                == str_value(s@.subrange(d + 1, s@.len() as int)))),
        (exists|d1: int, d2: int|
            0 <= d1 < d2 < s@.len() && s@[d1] == '-' && s@[d2] == '-') ==> r is None,
{
    let len = s.unicode_len();
    let mut dash: Option<usize> = None;
    let mut i: usize = 0;
    while i < len
        invariant
            i <= len,
            len == s@.len(),
            dash is None ==> forall|k: int| 0 <= k < i ==> #[trigger] s@[k] != '-',
            dash matches Some(d) ==> 0 <= d < i && s@[d as int] == '-' && (forall|k: int|
                0 <= k < i && k != d ==> #[trigger] s@[k] != '-'),
        decreases len - i,
    {
        if s.get_char(i) == '-' {
            match dash {
                None => {
                    dash = Some(i);
                },
                Some(_) => {
                    return None;
                },
            }
        }
        i += 1;
    }
    match dash {
        None => {
            match parse_u16(s) {
                Some(v) => Some((v, v)),
                None => None,
            }
        },
        Some(d) => {
            let left = s.substring_char(0, d);
            let right = s.substring_char(d + 1, len);
            let a = parse_u16(left);
            let b = parse_u16(right);
            match (a, b) {
                (Some(a), Some(b)) => Some((a, b)),
                _ => None,
            }
        },
    }
}

/// Formatting and parsing are inverses: the decimal rendering of any port
/// number is non-empty, all digits, and denotes that number again — so
/// `parse_u16` accepts exactly what `u16_to_decimal` produces.
pub proof fn lemma_decimal_round_trip(n: nat)
    ensures
        decimal_rep(n).len() >= 1,
        forall|k: int| 0 <= k < decimal_rep(n).len() ==> is_digit_char(#[trigger] decimal_rep(n)[k]),
        str_value(decimal_rep(n)) == n,
        n <= 65535 ==> is_port_digits(decimal_rep(n)),
    decreases n,
{
    if n < 10 {
        let rep = decimal_rep(n);
        assert(rep.drop_last() =~= Seq::<char>::empty());
        assert(str_value(Seq::<char>::empty()) == 0);
        assert(rep.last() == decimal_digit(n));
        assert(str_value(rep) == str_value(rep.drop_last()) * 10 + digit_char_val(rep.last()));
        assert(str_value(rep) == digit_char_val(decimal_digit(n)));
    } else {
        lemma_decimal_round_trip(n / 10);
        let rep = decimal_rep(n);
        let prefix = decimal_rep(n / 10);
        assert(rep.drop_last() =~= prefix);
        assert(rep.last() == decimal_digit(n % 10));
        assert(str_value(rep) == str_value(prefix) * 10 + digit_char_val(decimal_digit(n % 10)));
        assert(digit_char_val(decimal_digit(n % 10)) == n % 10);
        lemma_fundamental_div_mod(n as int, 10);
        assert forall|k: int| 0 <= k < rep.len() implies is_digit_char(#[trigger] rep[k]) by {
            if k < prefix.len() {
                assert(rep[k] == prefix[k]);
            } else {
                assert(rep[k] == decimal_digit(n % 10));
            }
        }
    }
}

/// The default output prefix for a run against a host, given the rendered
/// start time: `scan-<host>-<timestamp>`.
pub open spec fn default_prefix_chars(host: Seq<char>, timestamp: Seq<char>) -> Seq<char> {
    "scan-"@ + host + "-"@ + timestamp
}

/// Join host and rendered start time into the default output prefix.
pub fn prefix_with_timestamp(host: &str, timestamp: &str) -> (r: String)
    ensures
        r@ == default_prefix_chars(host@, timestamp@),
{
    let mut r = String::from_str("scan-");
    r.append(host);
    r.append("-");
    r.append(timestamp);
    r
}

/// Relies on chrono's `Utc::now` and `DateTime::format`: the current UTC
/// wall-clock time rendered as `%Y-%m-%d-%H-%M-%S`. The result depends on
/// the clock, so nothing is promised of it.
#[verifier::external_body]
fn utc_timestamp() -> (r: String) {
    chrono::Utc::now().format("%Y-%m-%d-%H-%M-%S").to_string()
}

/// The default output prefix when none is requested: `scan-<host>-<t>`,
/// where `t` is the UTC time the run started, as chrono renders it.
pub fn default_output_prefix(host: &str) -> (r: String)
    ensures
        exists|timestamp: Seq<char>| r@ == default_prefix_chars(host@, timestamp),
{
    let ts = utc_timestamp();
    let r = prefix_with_timestamp(host, ts.as_str());
    proof {
        assert(r@ == default_prefix_chars(host@, ts@));
    }
    r
}

impl ScanConfig {
    /// The path of the capture file for one port of this run:
    /// `<output_file>-<port>.raw`.
    pub fn capture_filename(&self, port: u16) -> (name: String)
        ensures
            name@ == capture_file_name(self.output_file@, port),
    {
        let mut name = String::from_str(self.output_file.as_str());
        name.append("-");
        let digits = u16_to_decimal(port);
        name.append(digits.as_str());
        name.append(".raw");
        name
    }
}

} // verus!
