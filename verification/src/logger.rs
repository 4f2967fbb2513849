//! The log: timestamped lines appended to an optional file. The library
//! decides what goes into each line and where it goes; reading the clock
//! and writing the file (failing silently) are left to the caller.
use vstd::prelude::*;
use crate::text::strings_view;

verus! {

/// The logger's configuration: the file to append to, if any.
pub struct Logger {
    log_path: Option<String>,
}

/// A line to append to a file.
pub struct LogRecord {
    pub path: String,
    pub line: String,
}

impl Logger {
    pub closed spec fn path_view(&self) -> Option<Seq<char>> {
        match self.log_path {
            Some(p) => Some(p@),
            None => None,
        }
    }

    /// A logger that writes to `log_path`, or nowhere when there is none.
    pub fn init(log_path: Option<String>) -> (r: Logger)
        ensures
            r.path_view() == (match log_path {
                Some(p) => Some(p@),
                None => None,
            }),
    {
        Logger { log_path }
    }

    /// The record that logging `message` at `timestamp` produces: none
    /// without a path, else the line `[timestamp] message` for the path.
    /// The caller reads the clock and passes the time as text.
    pub fn write_log(&self, timestamp: &str, message: &str, event_driven: bool) -> (r: Option<LogRecord>)
        ensures
            match self.path_view() {
                None => r is None,
                Some(p) => r matches Some(rec) && rec.path@ == p
                    && rec.line@ == log_line_text(timestamp@, message@, event_driven),
            },
    {
        match &self.log_path {
            None => None,
            Some(p) => {
                let line = render_log_line(timestamp, message, event_driven);
                Some(LogRecord { path: p.clone(), line })
            },
        }
    }
}

/// A character of an event-driven message, with line breaks folded to spaces.
pub open spec fn fold_break(c: char) -> char {
    if c == '\r' || c == '\n' { ' ' } else { c }
}

/// The message as written: event-driven messages have every CR and LF
/// replaced by a space; other messages are kept as they are.
pub open spec fn clean_text(message: Seq<char>, event_driven: bool) -> Seq<char> {
    if event_driven { message.map_values(|c: char| fold_break(c)) } else { message }
}

/// A log line: `[timestamp] message` and CRLF.
pub open spec fn log_line_text(timestamp: Seq<char>, message: Seq<char>, event_driven: bool) -> Seq<char> {
    "["@ + timestamp + "] "@ + clean_text(message, event_driven) + "\r\n"@
}

/// The message with line breaks folded when it is event-driven.
pub fn clean_message(message: &str, event_driven: bool) -> (r: String)
    ensures
        r@ == clean_text(message@, event_driven),
{
    if !event_driven {
        return String::from_str(message);
    }
    let n = message.unicode_len();
    let mut out = String::new();
    let mut i: usize = 0;
    while i < n
        invariant
            n == message@.len(),
            i <= n,
            out@ == message@.take(i as int).map_values(|c: char| fold_break(c)),
        decreases n - i,
    {
        let c = message.get_char(i);
        let ghost before = out@;
        if c == '\r' || c == '\n' {
            proof {
                reveal_strlit(" ");
            }
            out.append(" ");
            assert(" "@ =~= seq![' ']);
        } else {
            let piece = message.substring_char(i, i + 1);
            assert(piece@ =~= seq![c]);
            out.append(piece);
        }
        assert(message@.take(i + 1).map_values(|c: char| fold_break(c)) =~= message@.take(i as int).map_values(
            |c: char| fold_break(c),
        ).push(fold_break(c)));
        i = i + 1;
    }
    assert(message@.take(n as int) =~= message@);
    out
}

/// Renders one log line.
pub fn render_log_line(timestamp: &str, message: &str, event_driven: bool) -> (r: String)
    ensures
        r@ == log_line_text(timestamp@, message@, event_driven),
{
    let clean = clean_message(message, event_driven);
    let mut line = String::from_str("[");
    line.append(timestamp);
    line.append("] ");
    line.append(clean.as_str());
    line.append("\r\n");
    line
}

/// Logs `message`, stamped `timestamp`, through the configured logger, if
/// there is one.
pub fn write_log(logger: &Option<Logger>, timestamp: &str, message: &str, event_driven: bool) -> (r: Option<LogRecord>)
    ensures
        match logger {
            None => r is None,
            Some(l) => match l.path_view() {
                None => r is None,
                Some(p) => r matches Some(rec) && rec.path@ == p
                    && rec.line@ == log_line_text(timestamp@, message@, event_driven),
            },
        },
{
    match logger {
        Some(l) => l.write_log(timestamp, message, event_driven),
        None => None,
    }
}

/// Trusted: `format!("{:?}", s)` for a string slice (`<str as Debug>::fmt`).
pub uninterp spec fn spec_debug_str(s: Seq<char>) -> Seq<char>;

/// Trusted: `<str as Debug>::fmt`, the quoted and escaped form of a string.
#[verifier::external_body]
pub(crate) fn debug_str(s: &str) -> (r: String)
    ensures
        r@ == spec_debug_str(s@),
{
    format!("{:?}", s)
}

/// The rule that frames the header: sixty `=`.
pub open spec fn header_rule() -> Seq<char> {
    Seq::new(60, |i: int| '=')
}

/// The start-up header: a rule, the version, the command-line mode, a rule.
pub open spec fn header_text(version: Seq<char>, initial_mode: Seq<char>) -> Seq<Seq<char>> {
    seq![
        header_rule(),
        "Monitor Service "@ + version + " Started"@,
        "CLI Options: "@ + initial_mode,
        header_rule(),
    ]
}

fn rule_line() -> (r: String)
    ensures
        r@ == header_rule(),
{
    let mut r = String::new();
    let mut i: usize = 0;
    while i < 60
        invariant
            i <= 60,
            r@ == Seq::new(i as nat, |k: int| '='),
        decreases 60 - i,
    {
        proof {
            reveal_strlit("=");
        }
        r.append("=");
        assert(r@ =~= Seq::new((i + 1) as nat, |k: int| '='));
        i = i + 1;
    }
    r
}

/// The lines of the start-up header.
pub fn log_header(version: &str, initial_mode: &str) -> (r: Vec<String>)
    ensures
        strings_view(r@) == header_text(version@, initial_mode@),
{
    let mut v: Vec<String> = Vec::new();
    v.push(rule_line());
    v.push(String::from_str("Monitor Service ").concat(version).concat(" Started"));
    v.push(String::from_str("CLI Options: ").concat(initial_mode));
    v.push(rule_line());
    assert(strings_view(v@) =~= header_text(version@, initial_mode@));
    v
}

/// The lines of the closing footer.
pub fn log_footer() -> (r: Vec<String>)
    ensures
        strings_view(r@) == seq!["Cleanup..."@, "Terminated"@],
{
    let mut v: Vec<String> = Vec::new();
    v.push(String::from_str("Cleanup..."));
    v.push(String::from_str("Terminated"));
    assert(strings_view(v@) =~= seq!["Cleanup..."@, "Terminated"@]);
    v
}

/// An event-driven line holds exactly one line break, the CRLF at its end:
/// whatever the message, it cannot split the log.
pub proof fn lemma_event_line_single(timestamp: Seq<char>, message: Seq<char>)
    requires
        !timestamp.contains('\r'),
        !timestamp.contains('\n'),
    ensures
        ({
            let line = log_line_text(timestamp, message, true);
            &&& line.len() >= 2
            &&& line[line.len() - 2] == '\r'
            &&& line[line.len() - 1] == '\n'
            &&& forall|i: int| 0 <= i < line.len() - 2 ==> line[i] != '\r' && line[i] != '\n'
        }),
{
    reveal_strlit("[");
    reveal_strlit("] ");
    reveal_strlit("\r\n");
    let clean = clean_text(message, true);
    let line = log_line_text(timestamp, message, true);
    let head = "["@ + timestamp + "] "@;
    assert(line == head + clean + "\r\n"@);
    assert forall|i: int| 0 <= i < line.len() - 2 implies line[i] != '\r' && line[i] != '\n' by {
        if i < 1 {
            assert(line[i] == '[');
        } else if i < 1 + timestamp.len() {
            assert(line[i] == timestamp[i - 1]);
        } else if i < head.len() {
            assert(line[i] == "] "@[i - 1 - timestamp.len()]);
        } else {
            assert(line[i] == clean[i - head.len()]);
            assert(clean[i - head.len()] == fold_break(message[i - head.len()]));
        }
    }
}

} // verus!
