//! Decisions of the desktop front end: the bounded log view, the server's start and
//! stop state, input validation, and the URL encoded in the QR code.

use vstd::prelude::*;
use vstd::string::StringSliceAdditionalSpecFns;
use crate::text::{chars_of, decimal, extend_chars, extend_str, spec_decimal, spec_hex_padded, string_from_chars};

verus! {

/// Messages from the web server to the front end.
#[derive(Clone, Copy, Debug, PartialEq, Eq, Structural)]
pub enum Web2UiMessage {
    /// The uinput device could not be opened.
    UInputInaccessible,
}

// ---------------------------------------------------------------------------
// Log view
// ---------------------------------------------------------------------------

/// Lines the log view keeps before dropping the oldest.
pub const LOG_RING_CAPACITY: usize = 2000;

/// The lines after appending `line` to `lines` and keeping the newest
/// `LOG_RING_CAPACITY`.
pub open spec fn ring_push(lines: Seq<Seq<char>>, line: Seq<char>) -> Seq<Seq<char>> {
    if lines.len() >= LOG_RING_CAPACITY {
        lines.skip(lines.len() - LOG_RING_CAPACITY + 1).push(line)
    } else {
        lines.push(line)
    }
}

/// The log lines shown by the front end, oldest first, at most `LOG_RING_CAPACITY`.
pub struct LogRing {
    lines: Vec<String>,
}

impl LogRing {
    pub closed spec fn view_lines(&self) -> Seq<Seq<char>> {
        self.lines@.map_values(|s: String| s@)
    }

    pub open spec fn wf(&self) -> bool {
        self.view_lines().len() <= LOG_RING_CAPACITY
    }

    pub fn new() -> (r: LogRing)
        ensures
            r.wf(),
            r.view_lines() == Seq::<Seq<char>>::empty(),
    {
        let r = LogRing { lines: Vec::new() };
        assert(r.view_lines() =~= Seq::<Seq<char>>::empty());
        r
    }

    /// Appends a line, dropping the oldest lines beyond the capacity.
    pub fn push(&mut self, line: String)
        requires
            old(self).wf(),
        ensures
            final(self).wf(),
            final(self).view_lines() == ring_push(old(self).view_lines(), line@),
    {
        let ghost old_lines = self.view_lines();
        let n = self.lines.len();
        if n >= LOG_RING_CAPACITY {
            let drop_n = n - LOG_RING_CAPACITY + 1;
            let rest = self.lines.split_off(drop_n);
            self.lines = rest;
            assert(self.view_lines() =~= old_lines.skip(drop_n as int));
        }
        let ghost mid = self.view_lines();
        self.lines.push(line);
        assert(self.view_lines() =~= mid.push(line@));
    }

    /// Number of lines held.
    pub fn len(&self) -> (r: usize)
        ensures
            r == self.view_lines().len(),
    {
        self.lines.len()
    }

    /// Drops every line.
    pub fn clear(&mut self)
        ensures
            final(self).wf(),
            final(self).view_lines() == Seq::<Seq<char>>::empty(),
    {
        self.lines.clear();
        assert(self.view_lines() =~= Seq::<Seq<char>>::empty());
    }

    /// The line at position `i`, oldest first.
    pub fn line(&self, i: usize) -> (r: &String)
        requires
            i < self.view_lines().len(),
        ensures
            r@ == self.view_lines()[i as int],
    {
        &self.lines[i]
    }
}

/// Law: the log view never holds more than its capacity, always ends with the line
/// pushed last, and keeps every line it held when it was not full.
pub proof fn lemma_ring_push(lines: Seq<Seq<char>>, line: Seq<char>)
    requires
        lines.len() <= LOG_RING_CAPACITY,
    ensures
        ring_push(lines, line).len() <= LOG_RING_CAPACITY,
        ring_push(lines, line).last() == line,
        lines.len() < LOG_RING_CAPACITY ==> ring_push(lines, line) == lines.push(line),
        lines.len() == LOG_RING_CAPACITY ==> ring_push(lines, line).len() == LOG_RING_CAPACITY
            && ring_push(lines, line).drop_last() == lines.drop_first(),
{
    if lines.len() == LOG_RING_CAPACITY {
        assert(ring_push(lines, line).drop_last() =~= lines.drop_first());
    }
}

/// The caption of the log view: the line count, and a note when the oldest lines
/// were dropped.
pub fn log_caption(count: usize) -> (r: String)
    ensures
        r@ == spec_decimal(count as nat) + " line"@ + (if count == 1 { ""@ } else { "s"@ }) + (if count
            >= LOG_RING_CAPACITY { " (oldest trimmed)"@ } else { ""@ }),
{
    let mut v = decimal(count as u64);
    extend_str(&mut v, " line");
    if count != 1 {
        extend_str(&mut v, "s");
    }
    if count >= LOG_RING_CAPACITY {
        extend_str(&mut v, " (oldest trimmed)");
    }
    let r = string_from_chars(v.as_slice());
    proof {
        reveal_strlit("");
    }
    assert(r@ =~= spec_decimal(count as nat) + " line"@ + (if count == 1 { ""@ } else { "s"@ }) + (if count
        >= LOG_RING_CAPACITY { " (oldest trimmed)"@ } else { ""@ }));
    r
}

/// How a log line is coloured.
#[derive(Clone, Copy, Debug, PartialEq, Eq, Structural)]
pub enum LogSeverity {
    Error,
    Warn,
    Info,
    Other,
}

/// Whether `pat` occurs in `s`.
pub open spec fn contains_seq(s: Seq<char>, pat: Seq<char>) -> bool {
    exists|i: int| 0 <= i && i + pat.len() <= s.len() && #[trigger] s.subrange(i, i + pat.len()) == pat
}

fn occurs_at(s: &[char], pat: &[char], i: usize) -> (r: bool)
    requires
        i + pat@.len() <= s@.len(),
    ensures
        r == (s@.subrange(i as int, i + pat@.len()) == pat@),
{
    let n = s.len();
    let mut k: usize = 0;
    while k < pat.len()
        invariant
            k <= pat@.len(),
            n == s@.len(),
            i + pat@.len() <= s@.len(),
            forall|j: int| 0 <= j < k ==> s@[i + j] == pat@[j],
        decreases pat@.len() - k,
    {
        if s[i + k] != pat[k] {
            assert(s@.subrange(i as int, i + pat@.len())[k as int] != pat@[k as int]);
            return false;
        }
        k = k + 1;
    }
    assert(s@.subrange(i as int, i + pat@.len()) =~= pat@);
    true
}

fn contains_chars(s: &[char], pat: &[char]) -> (r: bool)
    ensures
        r == contains_seq(s@, pat@),
{
    if pat.len() == 0 {
        assert(s@.subrange(0int, 0int + pat@.len()) =~= pat@);
        return true;
    }
    if pat.len() > s.len() {
        return false;
    }
    let n = s.len();
    let last = n - pat.len();
    let mut i: usize = 0;
    while i <= last
        invariant
            n == s@.len(),
            pat@.len() >= 1,
            pat@.len() <= s@.len(),
            last == s@.len() - pat@.len(),
            i <= last + 1,
            forall|j: int| 0 <= j < i ==> #[trigger] s@.subrange(j, j + pat@.len()) != pat@,
        decreases last + 1 - i,
    {
        if occurs_at(s, pat, i) {
            return true;
        }
        i = i + 1;
    }
    false
}

/// The severity a line shows: the first of `ERROR`, `WARN`, `INFO` it contains.
pub open spec fn spec_severity(line: Seq<char>) -> LogSeverity {
    if contains_seq(line, "ERROR"@) {
        LogSeverity::Error
    } else if contains_seq(line, "WARN"@) {
        LogSeverity::Warn
    } else if contains_seq(line, "INFO"@) {
        LogSeverity::Info
    } else {
        LogSeverity::Other
    }
}

/// Classifies a log line for colouring.
pub fn log_severity(line: &str) -> (r: LogSeverity)
    ensures
        r == spec_severity(line@),
{
    let c = chars_of(line);
    let e = chars_of("ERROR");
    let w = chars_of("WARN");
    let i = chars_of("INFO");
    if contains_chars(c.as_slice(), e.as_slice()) {
        LogSeverity::Error
    } else if contains_chars(c.as_slice(), w.as_slice()) {
        LogSeverity::Warn
    } else if contains_chars(c.as_slice(), i.as_slice()) {
        LogSeverity::Info
    } else {
        LogSeverity::Other
    }
}

// ---------------------------------------------------------------------------
// Server state
// ---------------------------------------------------------------------------

/// Where the server's start and stop cycle stands.
#[derive(Clone, Debug, PartialEq, Eq)]
pub enum ServerState {
    Stopped,
    Starting,
    Running,
    Error(String),
}

/// The start/stop button: its label, whether it is enabled, and whether it stops.
pub fn start_button(state: &ServerState) -> (r: (&'static str, bool, bool))
    ensures
        r.0@ == match state {
            ServerState::Starting => "Starting..."@,
            ServerState::Running => "Stop"@,
            _ => "Start"@,
        },
        r.1 == !(*state is Starting),
        r.2 == (*state is Running),
{
    match state {
        ServerState::Starting => ("Starting...", false, false),
        ServerState::Running => ("Stop", true, true),
        _ => ("Start", true, false),
    }
}

/// The state after an attempt to start: running when the server came up, else
/// stopped.
pub fn after_start(started: bool) -> (r: ServerState)
    ensures
        r == if started { ServerState::Running } else { ServerState::Stopped },
{
    if started { ServerState::Running } else { ServerState::Stopped }
}

// ---------------------------------------------------------------------------
// Validation
// ---------------------------------------------------------------------------

/// Why a text is not a port number, as `u16`'s parser tells.
#[derive(Clone, Copy, Debug, PartialEq, Eq, Structural)]
pub enum PortError {
    Empty,
    InvalidDigit,
    PosOverflow,
}

/// Parses the decimal digits of `s` from position `i` on into `acc`: the first
/// non-digit is an invalid digit, a value past 65535 an overflow.
pub open spec fn parse_digits(s: Seq<char>, i: int, acc: int) -> Result<int, PortError>
    decreases s.len() - i,
{
    if i >= s.len() {
        Ok(acc)
    } else if !('0' <= s[i] <= '9') {
        Err(PortError::InvalidDigit)
    } else if acc * 10 + (s[i] as int - 48) > 65535 {
        Err(PortError::PosOverflow)
    } else {
        parse_digits(s, i + 1, acc * 10 + (s[i] as int - 48))
    }
}

/// How `u16`'s parser reads a text: empty is an error, a lone sign an invalid digit,
/// a leading `+` is skipped, and the rest must be decimal digits of a value that fits.
pub open spec fn spec_parse_port(s: Seq<char>) -> Result<int, PortError> {
    if s.len() == 0 {
        Err(PortError::Empty)
    } else if (s[0] == '+' || s[0] == '-') && s.len() == 1 {
        Err(PortError::InvalidDigit)
    } else if s[0] == '+' {
        parse_digits(s, 1, 0)
    } else {
        parse_digits(s, 0, 0)
    }
}

/// Parses a port number.
pub fn parse_port(s: &str) -> (r: Result<u16, PortError>)
    ensures
        match r {
            Ok(p) => spec_parse_port(s@) == Ok::<int, PortError>(p as int),
            Err(e) => spec_parse_port(s@) == Err::<int, PortError>(e),
        },
{
    let c = chars_of(s);
    if c.len() == 0 {
        return Err(PortError::Empty);
    }
    if (c[0] == '+' || c[0] == '-') && c.len() == 1 {
        return Err(PortError::InvalidDigit);
    }
    let mut i: usize = if c[0] == '+' { 1 } else { 0 };
    let mut acc: u32 = 0;
    while i < c.len()
        invariant
            i <= c@.len(),
            c@ == s@,
            acc <= 65535,
            spec_parse_port(s@) == parse_digits(c@, i as int, acc as int),
        decreases c@.len() - i,
    {
        let ch = c[i];
        if !('0' <= ch && ch <= '9') {
            return Err(PortError::InvalidDigit);
        }
        let d = (ch as u32) - 48;
        if acc * 10 + d > 65535 {
            return Err(PortError::PosOverflow);
        }
        acc = acc * 10 + d;
        i = i + 1;
    }
    Ok(acc as u16)
}

/// The message of a port error, as the integer parser words it.
pub fn port_error_text(e: PortError) -> (r: &'static str)
    ensures
        r@ == match e {
            PortError::Empty => "cannot parse integer from empty string"@,
            PortError::InvalidDigit => "invalid digit found in string"@,
            PortError::PosOverflow => "number too large to fit in target type"@,
        },
{
    match e {
        PortError::Empty => "cannot parse integer from empty string",
        PortError::InvalidDigit => "invalid digit found in string",
        PortError::PosOverflow => "number too large to fit in target type",
    }
}

/// Checks the port field: the port, or the message shown beside the field.
pub fn validate_port(s: &str) -> (r: Result<u16, String>)
    ensures
        match r {
            Ok(p) => spec_parse_port(s@) == Ok::<int, PortError>(p as int),
            Err(m) => spec_parse_port(s@) matches Err(e) && m@ == "Invalid port: "@ + match e {
                PortError::Empty => "cannot parse integer from empty string"@,
                PortError::InvalidDigit => "invalid digit found in string"@,
                PortError::PosOverflow => "number too large to fit in target type"@,
            },
        },
{
    match parse_port(s) {
        Ok(p) => Ok(p),
        Err(e) => {
            let mut v = chars_of("Invalid port: ");
            extend_str(&mut v, port_error_text(e));
            Err(string_from_chars(v.as_slice()))
        },
    }
}

/// The access code a field holds: none when it is empty.
pub fn access_code_field(field: &str) -> (r: Option<String>)
    ensures
        crate::web::string_opt(r) == if field@.len() == 0 { None } else { Some(field@) },
{
    if field.is_empty() { None } else { Some(field.to_owned()) }
}

// ---------------------------------------------------------------------------
// QR code URL
// ---------------------------------------------------------------------------

/// Whether a byte is an ASCII letter or digit.
pub open spec fn is_ascii_alnum(b: u8) -> bool {
    (48 <= b <= 57) || (65 <= b <= 90) || (97 <= b <= 122)
}

/// One byte percent-encoded with every byte but ASCII letters and digits escaped as
/// `%` and two upper-case hex digits.
pub open spec fn percent_encode_byte(b: u8) -> Seq<char> {
    if is_ascii_alnum(b) {
        seq![b as char]
    } else {
        seq!['%'] + spec_hex_padded(b as nat, 2)
    }
}

/// Bytes percent-encoded byte by byte.
pub open spec fn percent_encode(bytes: Seq<u8>) -> Seq<char>
    decreases bytes.len(),
{
    if bytes.len() == 0 {
        seq![]
    } else {
        percent_encode(bytes.drop_last()) + percent_encode_byte(bytes.last())
    }
}

/// Percent-encodes the UTF-8 bytes of `s`, by `percent_encoding::utf8_percent_encode`
/// with the `NON_ALPHANUMERIC` set. Claims what the crate's source shows: every byte
/// outside ASCII letters and digits becomes `%` and two upper-case hex digits, the
/// others stay as they are.
#[verifier::external_body]
fn utf8_percent_encode_non_alnum(s: &str) -> (r: String)
    ensures
        r@ == percent_encode(s.spec_bytes()),
{
    percent_encoding::utf8_percent_encode(s, percent_encoding::NON_ALPHANUMERIC).to_string()
}

/// The URL the QR code carries: the server's address, with the access code as a
/// percent-encoded query parameter when there is one.
pub fn qr_url(server_addr: &str, access_code: Option<&str>) -> (r: String)
    ensures
        r@ == server_addr@ + match access_code {
            Some(c) => "?access_code="@ + percent_encode(c.spec_bytes()),
            None => Seq::<char>::empty(),
        },
{
    let mut v = chars_of(server_addr);
    if let Some(code) = access_code {
        extend_str(&mut v, "?access_code=");
        let enc = utf8_percent_encode_non_alnum(code);
        extend_str(&mut v, enc.as_str());
    }
    let r = string_from_chars(v.as_slice());
    assert(access_code is None ==> r@ =~= server_addr@ + Seq::<char>::empty());
    r
}

} // verus!
