//! The JSON texts that responses are made of.
//!
//! Escaping a string is left to `serde_json`, and what it writes is stated
//! here; numbers, arrays and objects are framed here, in the compact form
//! without any white space.

use vstd::pervasive::unreached;
use vstd::prelude::*;
use vstd::string::StringExecFns;

verus! {

/// `serde_json::Error`, taken as an opaque type.
#[verifier::external_type_specification]
#[verifier::external_body]
pub struct ExJsonError(serde_json::Error);

/// The hexadecimal digit, in lower case, for a number below sixteen.
pub open spec fn hex_digit(d: nat) -> char {
    if d < 10 {
        digit(d)
    } else if d == 10 {
        'a'
    } else if d == 11 {
        'b'
    } else if d == 12 {
        'c'
    } else if d == 13 {
        'd'
    } else if d == 14 {
        'e'
    } else {
        'f'
    }
}

/// What one character becomes inside a JSON string: the quote, the backslash
/// and the control characters below U+0020 are escaped, the five common ones
/// by their letter and the others by their number; every other character
/// stands for itself.
pub open spec fn escape(c: char) -> Seq<char> {
    if c == '"' {
        seq!['\\', '"']
    } else if c == '\\' {
        seq!['\\', '\\']
    } else if c == '\u{8}' {
        seq!['\\', 'b']
    } else if c == '\t' {
        seq!['\\', 't']
    } else if c == '\n' {
        seq!['\\', 'n']
    } else if c == '\u{c}' {
        seq!['\\', 'f']
    } else if c == '\r' {
        seq!['\\', 'r']
    } else if (c as u32) < 0x20 {
        seq!['\\', 'u', '0', '0', hex_digit((c as nat) / 16), hex_digit((c as nat) % 16)]
    } else {
        seq![c]
    }
}

/// A text with each of its characters escaped.
pub open spec fn escaped(s: Seq<char>) -> Seq<char>
    decreases s.len(),
{
    if s.len() == 0 {
        Seq::empty()
    } else {
        escaped(s.drop_last()) + escape(s.last())
    }
}

/// The JSON string literal of the text `s`: the escaped text between two
/// quotes.
pub open spec fn json_string(s: Seq<char>) -> Seq<char> {
    seq!['"'] + escaped(s) + seq!['"']
}

/// Whether no character of `s` needs an escape.
pub open spec fn plain(s: Seq<char>) -> bool {
    forall|i: int| 0 <= i < s.len() ==> #[trigger] escape(s[i]) == seq![s[i]]
}

/// A text without a quote, a backslash or a control character is written
/// between the quotes as it is.
pub proof fn lemma_plain_string(s: Seq<char>)
    requires
        plain(s),
    ensures
        escaped(s) == s,
        json_string(s) == seq!['"'] + s + seq!['"'],
    decreases s.len(),
{
    if s.len() > 0 {
        let earlier = s.drop_last();
        assert forall|i: int| 0 <= i < earlier.len() implies #[trigger] escape(earlier[i])
            == seq![earlier[i]] by {
            assert(earlier[i] == s[i]);
        }
        lemma_plain_string(earlier);
        assert(escape(s.last()) == seq![s.last()]);
        assert(escaped(s) =~= s);
    } else {
        assert(escaped(s) =~= s);
    }
}

/// Escaping goes character by character: a text in two parts is escaped
/// part by part.
pub proof fn lemma_escaped_concat(a: Seq<char>, b: Seq<char>)
    ensures
        escaped(a + b) == escaped(a) + escaped(b),
    decreases b.len(),
{
    if b.len() == 0 {
        assert(a + b =~= a);
        assert(escaped(a) + escaped(b) =~= escaped(a));
    } else {
        lemma_escaped_concat(a, b.drop_last());
        assert((a + b).drop_last() =~= a + b.drop_last());
        assert((a + b).last() == b.last());
        assert(escaped(a + b) =~= escaped(a) + escaped(b));
    }
}

/// Calls `serde_json::to_string` on a string slice. For a string slice the
/// call writes into memory and always succeeds; it writes a quote, each
/// character of the text as `escape` says, and a quote.
#[verifier::external_body]
fn encode_str(s: &str) -> (r: Result<String, serde_json::Error>)
    ensures
        r is Ok,
        match r {
            Ok(text) => text@ == json_string(s@),
            Err(_) => false,
        },
{
    serde_json::to_string(s)
}

/// A value could not be written as JSON.
#[derive(Clone, Copy, Debug, PartialEq, Eq, Structural)]
pub enum JsonError {
    /// The value has no JSON text.
    Unencodable,
}

/// The decimal digit for a number below ten.
pub open spec fn digit(d: nat) -> char {
    if d == 0 {
        '0'
    } else if d == 1 {
        '1'
    } else if d == 2 {
        '2'
    } else if d == 3 {
        '3'
    } else if d == 4 {
        '4'
    } else if d == 5 {
        '5'
    } else if d == 6 {
        '6'
    } else if d == 7 {
        '7'
    } else if d == 8 {
        '8'
    } else {
        '9'
    }
}

/// A natural number in decimal, without leading zeros.
pub open spec fn decimal(n: nat) -> Seq<char>
    decreases n,
{
    if n < 10 {
        seq![digit(n)]
    } else {
        decimal(n / 10).push(digit(n % 10))
    }
}

/// The JSON strings of `items`, separated by commas.
pub open spec fn json_items(items: Seq<Seq<char>>) -> Seq<char>
    decreases items.len(),
{
    if items.len() == 0 {
        Seq::empty()
    } else if items.len() == 1 {
        json_string(items.last())
    } else {
        json_items(items.drop_last()) + ","@ + json_string(items.last())
    }
}

/// The JSON array of the strings `items`.
pub open spec fn json_array(items: Seq<Seq<char>>) -> Seq<char> {
    "["@ + json_items(items) + "]"@
}

/// The JSON object with the one member `count`.
pub open spec fn json_count(count: nat) -> Seq<char> {
    "{\"count\":"@ + decimal(count) + "}"@
}

/// The JSON object with the one member `msg`.
pub open spec fn json_msg(msg: Seq<char>) -> Seq<char> {
    "{\"msg\":"@ + json_string(msg) + "}"@
}

/// Writes a string as a JSON string literal.
pub fn string_text(s: &str) -> (text: String)
    ensures
        text@ == json_string(s@),
{
    match encode_str(s) {
        Ok(text) => text,
        Err(_) => unreached(),
    }
}

fn digit_text(d: usize) -> (text: &'static str)
    requires
        d < 10,
    ensures
        text@ == seq![digit(d as nat)],
{
    let text = if d == 0 {
        "0"
    } else if d == 1 {
        "1"
    } else if d == 2 {
        "2"
    } else if d == 3 {
        "3"
    } else if d == 4 {
        "4"
    } else if d == 5 {
        "5"
    } else if d == 6 {
        "6"
    } else if d == 7 {
        "7"
    } else if d == 8 {
        "8"
    } else {
        "9"
    };
    proof {
        reveal_strlit("0");
        reveal_strlit("1");
        reveal_strlit("2");
        reveal_strlit("3");
        reveal_strlit("4");
        reveal_strlit("5");
        reveal_strlit("6");
        reveal_strlit("7");
        reveal_strlit("8");
        reveal_strlit("9");
        assert(text@ =~= seq![digit(d as nat)]);
    }
    text
}

/// Writes a number in decimal.
pub fn decimal_text(n: usize) -> (text: String)
    ensures
        text@ == decimal(n as nat),
    decreases n,
{
    if n < 10 {
        String::from_str(digit_text(n))
    } else {
        let mut text = decimal_text(n / 10);
        text.append(digit_text(n % 10));
        assert(text@ =~= decimal(n as nat));
        text
    }
}

/// Writes a list of strings as a JSON array.
pub fn array_text(items: &Vec<String>) -> (text: String)
    ensures
        text@ == json_array(items.deep_view()),
{
    let ghost all = items.deep_view();
    let mut text = String::from_str("[");
    let mut i: usize = 0;
    while i < items.len()
        invariant
            i <= items.len(),
            all == items.deep_view(),
            text@ == "["@ + json_items(all.take(i as int)),
        decreases items.len() - i,
    {
        let ghost inner = json_items(all.take(i as int));
        let piece = string_text(items[i].as_str());
        if i > 0 {
            text.append(",");
        }
        text.append(piece.as_str());
        proof {
            let next = all.take(i + 1);
            assert(next.drop_last() =~= all.take(i as int));
            assert(next.last() == items[i as int]@);
            if i == 0 {
                assert(text@ =~= "["@ + piece@);
            } else {
                assert(text@ =~= "["@ + (inner + ","@ + piece@));
            }
        }
        i += 1;
    }
    text.append("]");
    proof {
        assert(all.take(i as int) =~= all);
    }
    text
}

/// Writes the JSON object with the one member `count`.
pub fn count_text(count: usize) -> (text: String)
    ensures
        text@ == json_count(count as nat),
{
    let mut text = String::from_str("{\"count\":");
    let digits = decimal_text(count);
    text.append(digits.as_str());
    text.append("}");
    text
}

/// Writes the JSON object with the one member `msg`.
pub fn msg_text(msg: &str) -> (text: String)
    ensures
        text@ == json_msg(msg@),
{
    let quoted = string_text(msg);
    let mut text = String::from_str("{\"msg\":");
    text.append(quoted.as_str());
    text.append("}");
    text
}

/// A value that a response can carry: one that has a JSON text.
pub trait JsonPayload {
    /// The JSON text of the value, or `None` where it has none.
    spec fn json(&self) -> Option<Seq<char>>;

    /// Writes the value as JSON.
    fn encode(&self) -> (r: Result<String, JsonError>)
        ensures
            match r {
                Ok(text) => self.json() == Some(text@),
                Err(_) => self.json().is_none(),
            },
    ;
}

impl JsonPayload for String {
    open spec fn json(&self) -> Option<Seq<char>> {
        Some(json_string(self@))
    }

    fn encode(&self) -> (r: Result<String, JsonError>) {
        Ok(string_text(self.as_str()))
    }
}

impl JsonPayload for Vec<String> {
    open spec fn json(&self) -> Option<Seq<char>> {
        Some(json_array(self.deep_view()))
    }

    fn encode(&self) -> (r: Result<String, JsonError>) {
        Ok(array_text(self))
    }
}

} // verus!
