use vstd::prelude::*;

verus! {

/// `serde_json::Error`, carried through as an opaque value.
#[verifier::external_type_specification]
#[verifier::external_body]
pub struct ExJsonError(serde_json::Error);

/// A hexadecimal digit in lower case.
pub open spec fn hex_digit(d: nat) -> char
    recommends
        d < 16,
{
    if d < 10 {
        (48 + d) as char
    } else {
        (87 + d) as char
    }
}

/// How serde_json writes one character inside a JSON string: a quote and a
/// backslash get a backslash in front; backspace, tab, line feed, form feed and
/// carriage return get their two-character escapes; the other characters below
/// U+0020 become `\u00` and two lower-case hex digits; everything else is
/// written as it is.
pub open spec fn escape_char(c: char) -> Seq<char> {
    if c == '"' {
        seq!['\\', '"']
    } else if c == '\\' {
        seq!['\\', '\\']
    } else if c == '\u{8}' {
        seq!['\\', 'b']
    } else if c == '\t' {
        seq!['\\', 't']
    } else if c == '\n' {
        seq!['\\', 'n']
    } else if c == '\u{c}' {
        seq!['\\', 'f']
    } else if c == '\r' {
        seq!['\\', 'r']
    } else if (c as int) < 0x20 {
        seq!['\\', 'u', '0', '0', hex_digit((c as nat) / 16), hex_digit((c as nat) % 16)]
    } else {
        seq![c]
    }
}

/// The escaped form of a text, character by character.
pub open spec fn escape_text(text: Seq<char>) -> Seq<char>
    decreases text.len(),
{
    if text.len() == 0 {
        seq![]
    } else {
        escape_char(text[0]) + escape_text(text.drop_first())
    }
}

/// A text between double quotes.
pub open spec fn quoted(text: Seq<char>) -> Seq<char> {
    seq!['"'] + text + seq!['"']
}

/// The JSON string that serde_json writes for a text.
pub open spec fn json_string(text: Seq<char>) -> Seq<char> {
    quoted(escape_text(text))
}

/// Calls `serde_json::to_string` on a `&str`.
/// Claimed, as serde_json's source shows (`format_escaped_str`, the `ESCAPE`
/// table and `write_char_escape`, all writing into a `Vec<u8>`): the call
/// succeeds, and its text is the input between double quotes, escaped as
/// `escape_char` says.
#[verifier::external_body]
fn encode_json_string(text: &str) -> (res: Result<String, serde_json::Error>)
    ensures
        res is Ok,
        res matches Ok(s) ==> s@ == json_string(text@),
{
    serde_json::to_string(text)
}

/// The JSON object that holds the four encoded fields, in the order in which
/// the record declares them, with no white space.
pub open spec fn message_json_frame(
    timestamp: Seq<char>,
    application: Seq<char>,
    level: Seq<char>,
    message: Seq<char>,
) -> Seq<char> {
    "{\"timestamp\":"@ + timestamp + ",\"application\":"@ + application + ",\"level\":"@ + level
        + ",\"message\":"@ + message + "}"@
}

/// The JSON text of a record with the given field texts.
pub open spec fn message_json(
    timestamp: Seq<char>,
    application: Seq<char>,
    level: Seq<char>,
    message: Seq<char>,
) -> Seq<char> {
    message_json_frame(
        json_string(timestamp),
        json_string(application),
        json_string(level),
        json_string(message),
    )
}

/// Puts four already encoded JSON strings into the record's object.
pub fn frame_message_json(timestamp: &str, application: &str, level: &str, message: &str) -> (res:
    String)
    ensures
        res@ == message_json_frame(timestamp@, application@, level@, message@),
{
    let mut out = String::new();
    out.append("{\"timestamp\":");
    out.append(timestamp);
    out.append(",\"application\":");
    out.append(application);
    out.append(",\"level\":");
    out.append(level);
    out.append(",\"message\":");
    out.append(message);
    out.append("}");
    out
}

/// Encodes a text as a JSON string.
pub fn encode_string(text: &str) -> (res: String)
    ensures
        res@ == json_string(text@),
{
    match encode_json_string(text) {
        Ok(s) => s,
        Err(_) => String::new(),
    }
}

/// The JSON text of a record from the texts of its four fields.
pub fn encode_message(timestamp: &str, application: &str, level: &str, message: &str) -> (res:
    String)
    ensures
        res@ == message_json(timestamp@, application@, level@, message@),
{
    let t = encode_string(timestamp);
    let a = encode_string(application);
    let l = encode_string(level);
    let m = encode_string(message);
    frame_message_json(t.as_str(), a.as_str(), l.as_str(), m.as_str())
}

// Reading JSON back.
/// The character that a backslash and the given character stand for.
pub open spec fn unescape_pair(c: char) -> char {
    if c == 'b' {
        '\u{8}'
    } else if c == 't' {
        '\t'
    } else if c == 'n' {
        '\n'
    } else if c == 'f' {
        '\u{c}'
    } else if c == 'r' {
        '\r'
    } else {
        c
    }
}

/// The value of a hexadecimal digit.
pub open spec fn hex_value(c: char) -> int {
    if '0' <= c && c <= '9' {
        c as int - 48
    } else if 'a' <= c && c <= 'f' {
        c as int - 87
    } else {
        c as int - 55
    }
}

/// Reads the body of a JSON string up to its closing quote: the text it stands
/// for and what follows the quote; `None` where no closing quote comes.
pub open spec fn read_json_string(s: Seq<char>) -> Option<(Seq<char>, Seq<char>)>
    decreases s.len(),
{
    if s.len() == 0 {
        None
    } else if s[0] == '"' {
        Some((seq![], s.drop_first()))
    } else if s[0] == '\\' && s.len() >= 6 && s[1] == 'u' {
        match read_json_string(s.subrange(6, s.len() as int)) {
            Some((t, r)) => Some(
                (
                    seq![
                        (hex_value(s[2]) * 4096 + hex_value(s[3]) * 256 + hex_value(s[4]) * 16
                            + hex_value(s[5])) as char,
                    ] + t,
                    r,
                ),
            ),
            None => None,
        }
    } else if s[0] == '\\' && s.len() >= 2 {
        match read_json_string(s.subrange(2, s.len() as int)) {
            Some((t, r)) => Some((seq![unescape_pair(s[1])] + t, r)),
            None => None,
        }
    } else if s[0] == '\\' {
        None
    } else {
        match read_json_string(s.drop_first()) {
            Some((t, r)) => Some((seq![s[0]] + t, r)),
            None => None,
        }
    }
}

/// What follows `prefix` in `s`, where `s` starts with it.
pub open spec fn after_prefix(s: Seq<char>, prefix: Seq<char>) -> Option<Seq<char>> {
    if prefix.len() <= s.len() && s.subrange(0, prefix.len() as int) == prefix {
        Some(s.subrange(prefix.len() as int, s.len() as int))
    } else {
        None
    }
}

/// Reads `key` and then a JSON string: its text and what follows it.
pub open spec fn read_field(s: Seq<char>, key: Seq<char>) -> Option<(Seq<char>, Seq<char>)> {
    match after_prefix(s, key + seq!['"']) {
        Some(rest) => read_json_string(rest),
        None => None,
    }
}

/// Reads a record's JSON object back into the texts of its four fields.
pub open spec fn read_message_json(s: Seq<char>) -> Option<
    (Seq<char>, Seq<char>, Seq<char>, Seq<char>),
> {
    match read_field(s, "{\"timestamp\":"@) {
        Some((t, r1)) => match read_field(r1, ",\"application\":"@) {
            Some((a, r2)) => match read_field(r2, ",\"level\":"@) {
                Some((l, r3)) => match read_field(r3, ",\"message\":"@) {
                    Some((m, r4)) => if r4 == "}"@ {
                        Some((t, a, l, m))
                    } else {
                        None
                    },
                    None => None,
                },
                None => None,
            },
            None => None,
        },
        None => None,
    }
}

proof fn lemma_hex_digit_value(d: nat)
    requires
        d < 16,
    ensures
        hex_value(hex_digit(d)) == d,
{
}

/// One escaped character in front of a readable string body reads back as that
/// character in front of the body's text.
proof fn lemma_read_escaped_char(c: char, tail: Seq<char>)
    requires
        read_json_string(tail) is Some,
    ensures
        match read_json_string(tail) {
            Some((t, r)) => read_json_string(escape_char(c) + tail) == Some((seq![c] + t, r)),
            None => true,
        },
{
    let e = escape_char(c);
    let s = e + tail;
    if c == '"' || c == '\\' || c == '\u{8}' || c == '\t' || c == '\n' || c == '\u{c}' || c == '\r' {
        assert(s[0] == '\\' && s[1] != 'u');
        assert(s.subrange(2, s.len() as int) =~= tail);
    } else if (c as int) < 0x20 {
        assert(s[0] == '\\' && s[1] == 'u' && s[2] == '0' && s[3] == '0');
        assert(s.subrange(6, s.len() as int) =~= tail);
        lemma_hex_digit_value((c as nat) / 16);
        lemma_hex_digit_value((c as nat) % 16);
        assert(hex_value(s[4]) * 16 + hex_value(s[5]) == c as int);
    } else {
        assert(s[0] == c);
        assert(s.drop_first() =~= tail);
    }
}

/// An escaped text followed by a quote reads back as the text, whatever follows.
pub proof fn lemma_read_escaped(text: Seq<char>, rest: Seq<char>)
    ensures
        read_json_string(escape_text(text) + seq!['"'] + rest) == Some((text, rest)),
    decreases text.len(),
{
    let s = escape_text(text) + seq!['"'] + rest;
    if text.len() == 0 {
        assert(s =~= seq!['"'] + rest);
        assert(s.drop_first() =~= rest);
    } else {
        let c = text[0];
        let tail = escape_text(text.drop_first()) + seq!['"'] + rest;
        lemma_read_escaped(text.drop_first(), rest);
        lemma_read_escaped_char(c, tail);
        assert(s =~= escape_char(c) + tail);
        assert(seq![c] + text.drop_first() =~= text);
    }
}

proof fn lemma_read_field(key: Seq<char>, text: Seq<char>, rest: Seq<char>)
    ensures
        read_field(key + json_string(text) + rest, key) == Some((text, rest)),
{
    let s = key + json_string(text) + rest;
    let p = key + seq!['"'];
    let body = escape_text(text) + seq!['"'] + rest;
    assert(s =~= p + body);
    assert(s.subrange(0, p.len() as int) =~= p);
    assert(s.subrange(p.len() as int, s.len() as int) =~= body);
    lemma_read_escaped(text, rest);
}

/// A record's JSON text reads back as the texts of its four fields, whatever
/// characters they hold.
pub proof fn lemma_message_json_reads_back(
    timestamp: Seq<char>,
    application: Seq<char>,
    level: Seq<char>,
    message: Seq<char>,
)
    ensures
        read_message_json(message_json(timestamp, application, level, message)) == Some(
            (timestamp, application, level, message),
        ),
{
    let k0 = "{\"timestamp\":"@;
    let k1 = ",\"application\":"@;
    let k2 = ",\"level\":"@;
    let k3 = ",\"message\":"@;
    let k4 = "}"@;
    let r4 = k4;
    let r3 = k3 + json_string(message) + r4;
    let r2 = k2 + json_string(level) + r3;
    let r1 = k1 + json_string(application) + r2;
    let whole = message_json(timestamp, application, level, message);
    assert(whole =~= k0 + json_string(timestamp) + r1);
    lemma_read_field(k0, timestamp, r1);
    lemma_read_field(k1, application, r2);
    lemma_read_field(k2, level, r3);
    lemma_read_field(k3, message, r4);
}

} // verus!
