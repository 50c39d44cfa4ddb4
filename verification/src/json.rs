//! JSON text: string literals by `serde_json`, arrays and objects framed
//! here.

use vstd::pervasive::unreached;
use vstd::prelude::*;

verus! {

#[verifier::external_type_specification]
#[verifier::external_body]
pub struct ExJsonError(serde_json::Error);

/// The JSON string literal that `serde_json::to_string` writes for a text,
/// quotes and escapes and all.
pub uninterp spec fn json_string(text: Seq<char>) -> Seq<char>;

/// `serde_json::to_string` on a string slice: the JSON string literal for
/// `text`. The call fails only where a value's own way of writing itself
/// fails or a map has a key that is no string; a string slice is neither,
/// and the literal is written into memory, so the call succeeds. The
/// literal depends on the text alone; the contract names it.
#[verifier::external_body]
fn to_json_string(text: &str) -> (outcome: Result<String, serde_json::Error>)
    ensures
        outcome is Ok,
        outcome->Ok_0@ == json_string(text@),
{
    serde_json::to_string(text)
}

/// The JSON string literals for a list of texts, in order.
pub open spec fn json_strings(texts: Seq<Seq<char>>) -> Seq<Seq<char>> {
    Seq::new(texts.len(), |i: int| json_string(texts[i]))
}

/// The parts, with a comma between each two neighbours.
pub open spec fn joined(parts: Seq<Seq<char>>) -> Seq<char>
    decreases parts.len(),
{
    if parts.len() == 0 {
        Seq::empty()
    } else if parts.len() == 1 {
        parts[0]
    } else {
        joined(parts.drop_last()) + ","@ + parts.last()
    }
}

/// A JSON array whose items are the given JSON texts.
pub open spec fn array(items: Seq<Seq<char>>) -> Seq<char> {
    "["@ + joined(items) + "]"@
}

/// One member of a JSON object: a key, already a JSON string literal, and
/// its value, already JSON text.
pub open spec fn member(key: Seq<char>, value: Seq<char>) -> Seq<char> {
    key + ":"@ + value
}

/// A JSON object whose members are the given texts.
pub open spec fn object(members: Seq<Seq<char>>) -> Seq<char> {
    "{"@ + joined(members) + "}"@
}

/// The JSON string literal for `text`.
pub fn quote(text: &str) -> (literal: String)
    ensures
        literal@ == json_string(text@),
{
    match to_json_string(text) {
        Ok(literal) => literal,
        Err(_) => unreached(),
    }
}

/// The JSON string literals for `texts`, in order.
pub fn quote_all(texts: &Vec<String>) -> (literals: Vec<String>)
    ensures
        literals.deep_view() == json_strings(texts.deep_view()),
{
    let mut literals: Vec<String> = Vec::new();
    let mut i: usize = 0;
    while i < texts.len()
        invariant
            i <= texts.len(),
            literals.len() == i,
            forall|k: int| 0 <= k < i ==> (#[trigger] literals[k])@ == json_string(texts[k]@),
        decreases texts.len() - i,
    {
        literals.push(quote(texts[i].as_str()));
        i = i + 1;
    }
    assert(literals.deep_view() =~= json_strings(texts.deep_view()));
    literals
}

/// The parts, with a comma between each two neighbours.
pub fn join(parts: &Vec<String>) -> (text: String)
    ensures
        text@ == joined(parts.deep_view()),
{
    let mut text: String = String::new();
    let mut i: usize = 0;
    while i < parts.len()
        invariant
            i <= parts.len(),
            text@ == joined(parts.deep_view().take(i as int)),
        decreases parts.len() - i,
    {
        proof {
            let before = parts.deep_view().take(i as int);
            let after = parts.deep_view().take(i + 1);
            assert(after.drop_last() =~= before);
            assert(after.last() == parts[i as int]@);
            if i == 0 {
                assert(joined(after) == parts[i as int]@);
                assert(text@ + parts[i as int]@ =~= joined(after));
            }
        }
        if i > 0 {
            text.append(",");
        }
        text.append(parts[i].as_str());
        i = i + 1;
    }
    assert(parts.deep_view().take(parts.len() as int) =~= parts.deep_view());
    text
}

/// A JSON array whose items are the given JSON texts.
pub fn array_text(items: &Vec<String>) -> (text: String)
    ensures
        text@ == array(items.deep_view()),
{
    let mut text: String = String::from_str("[");
    let inner: String = join(items);
    text.append(inner.as_str());
    text.append("]");
    text
}

/// One member of a JSON object.
pub fn member_text(key: &str, value: &str) -> (text: String)
    ensures
        text@ == member(key@, value@),
{
    let mut text: String = String::from_str(key);
    text.append(":");
    text.append(value);
    text
}

/// A JSON object whose members are the given texts.
pub fn object_text(members: &Vec<String>) -> (text: String)
    ensures
        text@ == object(members.deep_view()),
{
    let mut text: String = String::from_str("{");
    let inner: String = join(members);
    text.append(inner.as_str());
    text.append("}");
    text
}

} // verus!
