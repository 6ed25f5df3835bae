//! Text that the service puts into responses: integers in decimal notation
//! and the JSON document that reports an error to a client.

use vstd::prelude::*;
use vstd::string::*;

verus! {

/// The character of the decimal digit `d`.
pub open spec fn digit_char(d: int) -> char
    recommends
        0 <= d < 10,
{
    if d == 0 {
        '0'
    } else if d == 1 {
        '1'
    } else if d == 2 {
        '2'
    } else if d == 3 {
        '3'
    } else if d == 4 {
        '4'
    } else if d == 5 {
        '5'
    } else if d == 6 {
        '6'
    } else if d == 7 {
        '7'
    } else if d == 8 {
        '8'
    } else {
        '9'
    }
}

/// `n` in decimal notation, without leading zeros.
pub open spec fn nat_text(n: nat) -> Seq<char>
    decreases n,
{
    if n < 10 {
        seq![digit_char(n as int)]
    } else {
        nat_text(n / 10).push(digit_char((n % 10) as int))
    }
}

/// `n` in decimal notation, with a minus sign in front of a negative number.
pub open spec fn int_text(n: int) -> Seq<char> {
    if n < 0 {
        seq!['-'] + nat_text((-n) as nat)
    } else {
        nat_text(n as nat)
    }
}

/// Whether a JSON string has to escape `c`: the control characters, the
/// double quote and the backslash.
pub open spec fn json_escaped(c: char) -> bool {
    (c as u32) < 0x20 || c == '"' || c == '\\'
}

/// Whether `text` can stand in a JSON string as it is.
pub open spec fn json_plain(text: Seq<char>) -> bool {
    forall|i: int| 0 <= i < text.len() ==> !json_escaped(#[trigger] text[i])
}

/// The compact JSON object with one member whose value is a string, for a
/// key and a value that need no escaping: `{"key":"value"}`.
pub open spec fn json_member_text(key: Seq<char>, value: Seq<char>) -> Seq<char> {
    seq!['{', '"'] + key + seq!['"', ':', '"'] + value + seq!['"', '}']
}

/// The decimal notation of any integer is made of digits and a minus sign.
pub proof fn lemma_int_text_is_json_plain(n: int)
    ensures
        json_plain(int_text(n)),
        int_text(n).len() >= 1,
{
    if n < 0 {
        lemma_nat_text_is_json_plain((-n) as nat);
    } else {
        lemma_nat_text_is_json_plain(n as nat);
    }
}

proof fn lemma_nat_text_is_json_plain(n: nat)
    ensures
        json_plain(nat_text(n)),
        nat_text(n).len() >= 1,
    decreases n,
{
    if n >= 10 {
        lemma_nat_text_is_json_plain(n / 10);
    }
}

/// `serde_json`: builds a `Value::Object` with the one member `key`, whose
/// value is `Value::String(value)`, and prints it with `Value`'s `Display`.
/// That is the compact form: braces, the key and the value in double quotes,
/// a colon between them and no white space. The serializer copies every
/// character but the control characters, the double quote and the backslash,
/// which the precondition leaves out.
#[verifier::external_body]
pub(crate) fn json_object_with_member(key: &str, value: &str) -> (document: String)
    requires
        json_plain(key@),
        json_plain(value@),
    ensures
        document@ == json_member_text(key@, value@),
{
    let mut members = serde_json::Map::new();
    members.insert(key.to_string(), serde_json::Value::String(value.to_string()));
    serde_json::Value::Object(members).to_string()
}

fn digit_str(d: u64) -> (s: &'static str)
    requires
        d < 10,
    ensures
        s@ == seq![digit_char(d as int)],
{
    proof {
        reveal_strlit("0");
        reveal_strlit("1");
        reveal_strlit("2");
        reveal_strlit("3");
        reveal_strlit("4");
        reveal_strlit("5");
        reveal_strlit("6");
        reveal_strlit("7");
        reveal_strlit("8");
        reveal_strlit("9");
    }
    let s = if d == 0 {
        "0"
    } else if d == 1 {
        "1"
    } else if d == 2 {
        "2"
    } else if d == 3 {
        "3"
    } else if d == 4 {
        "4"
    } else if d == 5 {
        "5"
    } else if d == 6 {
        "6"
    } else if d == 7 {
        "7"
    } else if d == 8 {
        "8"
    } else {
        "9"
    };
    assert(s@ =~= seq![digit_char(d as int)]);
    s
}

/// Writes `n` in decimal notation.
pub fn nat_to_text(n: u64) -> (text: String)
    ensures
        text@ == nat_text(n as nat),
    decreases n,
{
    if n < 10 {
        String::from_str(digit_str(n))
    } else {
        let mut text = nat_to_text(n / 10);
        text.append(digit_str(n % 10));
        assert(text@ =~= nat_text(n as nat));
        text
    }
}

/// Writes `n` in decimal notation, as `Display` prints an `i64`.
pub fn int_to_text(n: i64) -> (text: String)
    ensures
        text@ == int_text(n as int),
{
    if n < 0 {
        let magnitude: u64 = (-(n as i128)) as u64;
        let digits = nat_to_text(magnitude);
        proof {
            reveal_strlit("-");
        }
        let text = String::from_str("-").concat(digits.as_str());
        assert(text@ =~= int_text(n as int));
        text
    } else {
        nat_to_text(n as u64)
    }
}

} // verus!
