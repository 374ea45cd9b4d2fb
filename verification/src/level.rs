use vstd::prelude::*;

verus! {

/// Whether every character of a text is ASCII.
pub open spec fn is_ascii_text(text: Seq<char>) -> bool {
    forall|i: int| 0 <= i < text.len() ==> (#[trigger] text[i] as int) < 128
}

/// The upper case of an ASCII character: `a` to `z` become `A` to `Z`, the rest stay.
pub open spec fn ascii_upper_char(c: char) -> char {
    if 'a' <= c && c <= 'z' {
        ((c as int) - 32) as char
    } else {
        c
    }
}

/// The upper case of an ASCII text, character by character.
pub open spec fn ascii_uppercase(text: Seq<char>) -> Seq<char> {
    text.map_values(|c: char| ascii_upper_char(c))
}

/// What `str::to_uppercase` gives for a text that holds a character beyond ASCII
/// (the Unicode upper-case mapping).
pub uninterp spec fn unicode_uppercase(text: Seq<char>) -> Seq<char>;

/// The upper case of a text, as `str::to_uppercase` computes it.
pub open spec fn uppercase(text: Seq<char>) -> Seq<char> {
    if is_ascii_text(text) {
        ascii_uppercase(text)
    } else {
        unicode_uppercase(text)
    }
}

/// Calls `str::to_uppercase`.
/// Claimed: an ASCII text comes out with `a` to `z` turned into `A` to `Z` and every
/// other character unchanged (the Unicode mapping restricted to ASCII); any other
/// text comes out as `unicode_uppercase`, a function of the text alone.
/// Not claimed: the Unicode case mapping beyond ASCII.
#[verifier::external_body]
fn to_uppercase(text: &str) -> (res: String)
    ensures
        is_ascii_text(text@) ==> res@ == ascii_uppercase(text@),
        !is_ascii_text(text@) ==> res@ == unicode_uppercase(text@),
{
    text.to_uppercase()
}

/// The severity of a log call.
#[derive(Clone, Copy, Debug, PartialEq, Eq, Structural)]
pub enum Severity {
    Error,
    Warn,
    Info,
    Debug,
    Trace,
}

/// The text that names a severity in a record.
pub open spec fn severity_label(severity: Severity) -> Seq<char> {
    match severity {
        Severity::Error => "ERROR"@,
        Severity::Warn => "WARN"@,
        Severity::Info => "INFO"@,
        Severity::Debug => "DEBUG"@,
        Severity::Trace => "TRACE"@,
    }
}

/// Whether a logger configured with `level` sends a call of the given severity.
/// The level is read in upper case: `ERROR` keeps only errors and traces, `WARN`
/// drops information and debug calls, only `DEBUG` lets debug calls through, and
/// error and trace calls are always sent.
pub open spec fn level_admits(level: Seq<char>, severity: Severity) -> bool {
    let upper = uppercase(level);
    match severity {
        Severity::Error => true,
        Severity::Warn => upper != "ERROR"@,
        Severity::Info => upper != "ERROR"@ && upper != "WARN"@,
        Severity::Debug => upper == "DEBUG"@,
        Severity::Trace => true,
    }
}

impl Severity {
    /// The name of the severity as it stands in a record.
    pub fn label(&self) -> (res: &'static str)
        ensures
            res@ == severity_label(*self),
    {
        match self {
            Severity::Error => "ERROR",
            Severity::Warn => "WARN",
            Severity::Info => "INFO",
            Severity::Debug => "DEBUG",
            Severity::Trace => "TRACE",
        }
    }
}

/// Whether the level text, read in upper case, equals the given name.
fn level_is(upper: &String, name: &str) -> (res: bool)
    ensures
        res == (upper@ == name@),
{
    let name = name.to_owned();
    *upper == name
}

/// Whether a logger configured with `level` sends a call of the given severity.
pub fn admits(level: &str, severity: Severity) -> (res: bool)
    ensures
        res == level_admits(level@, severity),
{
    match severity {
        Severity::Error => true,
        Severity::Trace => true,
        Severity::Warn => {
            let upper = to_uppercase(level);
            !level_is(&upper, "ERROR")
        },
        Severity::Info => {
            let upper = to_uppercase(level);
            !level_is(&upper, "ERROR") && !level_is(&upper, "WARN")
        },
        Severity::Debug => {
            let upper = to_uppercase(level);
            level_is(&upper, "DEBUG")
        },
    }
}

/// Every level lets through whatever is more severe than what it lets through:
/// a debug call sent implies an information call sent, an information call sent
/// implies a warning sent; errors and traces are sent at every level.
pub proof fn lemma_admission_is_a_threshold(level: Seq<char>)
    ensures
        level_admits(level, Severity::Debug) ==> level_admits(level, Severity::Info),
        level_admits(level, Severity::Info) ==> level_admits(level, Severity::Warn),
        level_admits(level, Severity::Warn) ==> level_admits(level, Severity::Error),
        level_admits(level, Severity::Error),
        level_admits(level, Severity::Trace),
{
    reveal_strlit("DEBUG");
    reveal_strlit("ERROR");
    reveal_strlit("WARN");
    assert("DEBUG"@[0] != "ERROR"@[0]);
    assert("DEBUG"@.len() != "WARN"@.len());
}

/// The level is read without regard to letter case: two levels with the same
/// upper-case form let through the same calls.
pub proof fn lemma_admission_ignores_case(a: Seq<char>, b: Seq<char>, severity: Severity)
    requires
        uppercase(a) == uppercase(b),
    ensures
        level_admits(a, severity) == level_admits(b, severity),
{
}

} // verus!
