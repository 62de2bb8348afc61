//! The JSON text of the service's values.
//!
//! Numbers and strings are encoded by `serde_json`; the objects and the
//! array that hold them are framed here, in the compact form: no space
//! between tokens, fields in the order in which they are declared.

use vstd::prelude::*;

verus! {

/// The character of the decimal digit `d`, for `d` below ten.
pub open spec fn digit(d: nat) -> char {
    if d == 0 {
        '0'
    } else if d == 1 {
        '1'
    } else if d == 2 {
        '2'
    } else if d == 3 {
        '3'
    } else if d == 4 {
        '4'
    } else if d == 5 {
        '5'
    } else if d == 6 {
        '6'
    } else if d == 7 {
        '7'
    } else if d == 8 {
        '8'
    } else {
        '9'
    }
}

/// The decimal digits of `n`, most significant first, with no leading zero.
pub open spec fn decimal(n: nat) -> Seq<char>
    decreases n,
{
    if n < 10 {
        seq![digit(n)]
    } else {
        decimal(n / 10).push(digit(n % 10))
    }
}

/// The JSON string literal that `serde_json` writes for the characters `s`:
/// the quotes, and between them `s` with its escapes.
pub uninterp spec fn json_string(s: Seq<char>) -> Seq<char>;

/// Calls `serde_json::to_string` on a `u32`.
///
/// Trusted: the call succeeds for every `u32`, since the text goes to a byte
/// vector in memory, and the text is the number in decimal.
#[verifier::external_body]
pub(crate) fn encode_u32(n: u32) -> (text: String)
    ensures
        text@ == decimal(n as nat),
{
    serde_json::to_string(&n).unwrap()
}

/// Calls `serde_json::to_string` on a string slice.
///
/// Trusted: the call succeeds for every string, since the text goes to a byte
/// vector in memory, and the text depends on the characters of `s` alone.
#[verifier::external_body]
pub(crate) fn encode_str(s: &str) -> (text: String)
    ensures
        text@ == json_string(s@),
{
    serde_json::to_string(s).unwrap()
}

/// The object of a ticket, given the texts of its two fields.
pub open spec fn ticket_object(id: Seq<char>, author: Seq<char>) -> Seq<char> {
    "{\"id\":"@ + id + ",\"author\":"@ + author + "}"@
}

/// The object of an error record, given the texts of its two fields.
pub open spec fn error_object(id: Seq<char>, err: Seq<char>) -> Seq<char> {
    "{\"id\":"@ + id + ",\"err\":"@ + err + "}"@
}

/// The items in order, with a comma between each two.
pub open spec fn comma_separated(items: Seq<Seq<char>>) -> Seq<char>
    decreases items.len(),
{
    if items.len() == 0 {
        Seq::empty()
    } else if items.len() == 1 {
        items[0]
    } else {
        comma_separated(items.drop_last()) + ","@ + items.last()
    }
}

/// The array of the given item texts.
pub open spec fn array(items: Seq<Seq<char>>) -> Seq<char> {
    "["@ + comma_separated(items) + "]"@
}

/// The texts of a vector of strings.
pub open spec fn texts(items: Seq<String>) -> Seq<Seq<char>> {
    items.map_values(|s: String| s@)
}

/// Frames a ticket's object around the encoded id and author.
pub fn write_ticket_object(id: &str, author: &str) -> (text: String)
    ensures
        text@ == ticket_object(id@, author@),
{
    let mut text = String::from_str("{\"id\":");
    text.append(id);
    text.append(",\"author\":");
    text.append(author);
    text.append("}");
    text
}

/// Frames an error record's object around the encoded id and message.
pub fn write_error_object(id: &str, err: &str) -> (text: String)
    ensures
        text@ == error_object(id@, err@),
{
    let mut text = String::from_str("{\"id\":");
    text.append(id);
    text.append(",\"err\":");
    text.append(err);
    text.append("}");
    text
}

/// Frames an array around the encoded items, in their order.
pub fn write_array(items: &Vec<String>) -> (text: String)
    ensures
        text@ == array(texts(items@)),
{
    let mut text = String::from_str("[");
    let mut i: usize = 0;
    while i < items.len()
        invariant
            i <= items.len(),
            text@ == "["@ + comma_separated(texts(items@).take(i as int)),
        decreases items.len() - i,
    {
        proof {
            let done = texts(items@).take(i as int);
            let next = texts(items@).take(i + 1);
            assert(next.drop_last() == done);
            assert(next.last() == items@[i as int]@);
        }
        if i > 0 {
            text.append(",");
        }
        text.append(items[i].as_str());
        i = i + 1;
    }
    proof {
        assert(texts(items@).take(i as int) == texts(items@));
    }
    text.append("]");
    text
}

} // verus!
