//! Values written out field by field, in the notation of Rust's debug
//! formatting: `Name { field: value, .. }` for a structure, `[a, b]` for a
//! list, text in double quotes.

use vstd::prelude::*;
use vstd::string::*;
use crate::listing::push_line;
use crate::text::{joined, texts};

verus! {

/// A text in double quotes, with the characters escaped that debug
/// formatting escapes.
pub uninterp spec fn quoted(s: Seq<char>) -> Seq<char>;

/// Formats a text with `std::fmt::Debug` for `str`. The contract only names
/// what that gives: the quotes and the escapes are std's.
#[verifier::external_body]
fn quote(s: &str) -> (out: String)
    ensures
        out@ == quoted(s@),
{
    format!("{:?}", s)
}

/// Each text of a list in quotes.
pub open spec fn quoted_all(items: Seq<String>) -> Seq<Seq<char>> {
    Seq::new(items.len(), |i: int| quoted(items[i]@))
}

/// The items with a comma and a blank between each two.
pub open spec fn comma_joined(items: Seq<Seq<char>>) -> Seq<char>
    decreases items.len(),
{
    if items.len() == 0 {
        Seq::empty()
    } else if items.len() == 1 {
        items[0]
    } else {
        comma_joined(items.drop_last()) + ", "@ + items.last()
    }
}

/// A list: its items between square brackets.
pub open spec fn list_text(items: Seq<Seq<char>>) -> Seq<char> {
    "["@ + comma_joined(items) + "]"@
}

/// One field of a structure: its name, a colon and its value.
pub open spec fn field_text(name: Seq<char>, value: Seq<char>) -> Seq<char> {
    name + ": "@ + value
}

/// A structure: its name, then its fields between braces.
pub open spec fn struct_text(name: Seq<char>, fields: Seq<Seq<char>>) -> Seq<char> {
    name + " { "@ + comma_joined(fields) + " }"@
}

/// How a flag is written.
pub open spec fn flag_text(flag: bool) -> Seq<char> {
    if flag {
        "true"@
    } else {
        "false"@
    }
}

/// Writes a flag.
pub fn flag_str(flag: bool) -> (s: &'static str)
    ensures
        s@ == flag_text(flag),
{
    if flag {
        "true"
    } else {
        "false"
    }
}

/// Puts each text of a list in quotes.
pub fn quote_all(items: &Vec<String>) -> (out: Vec<String>)
    ensures
        texts(out@) == quoted_all(items@),
{
    let mut out: Vec<String> = Vec::new();
    let mut i: usize = 0;
    assert(texts(out@) =~= quoted_all(items@).take(0));
    while i < items.len()
        invariant
            i <= items.len(),
            texts(out@) == quoted_all(items@).take(i as int),
        decreases items.len() - i,
    {
        push_line(&mut out, quote(items[i].as_str()));
        i += 1;
        assert(quoted_all(items@).take(i - 1) + seq![quoted(items@[i - 1]@)] =~= quoted_all(
            items@,
        ).take(i as int));
    }
    assert(quoted_all(items@).take(i as int) =~= quoted_all(items@));
    out
}

/// Joins the items with a comma and a blank between each two.
pub fn comma_join(items: &Vec<String>) -> (out: String)
    ensures
        out@ == comma_joined(texts(items@)),
{
    let mut out: String = String::new();
    let mut i: usize = 0;
    let ghost all = texts(items@);
    assert(all.take(0) =~= Seq::<Seq<char>>::empty());
    while i < items.len()
        invariant
            i <= items.len(),
            all == texts(items@),
            out@ == comma_joined(all.take(i as int)),
        decreases items.len() - i,
    {
        let ghost before = out@;
        if i > 0 {
            out.append(", ");
        }
        out.append(items[i].as_str());
        proof {
            let done = all.take(i + 1);
            assert(done.drop_last() =~= all.take(i as int));
            assert(done.last() == items@[i as int]@);
            if i == 0 {
                assert(out@ =~= items@[0]@);
            } else {
                assert(done.len() > 1);
                assert(out@ =~= before + ", "@ + items@[i as int]@);
            }
        }
        i += 1;
    }
    assert(all.take(i as int) =~= all);
    out
}

/// Writes a list of items that are already written.
pub fn list_of(items: &Vec<String>) -> (out: String)
    ensures
        out@ == list_text(texts(items@)),
{
    let mut out: String = String::from_str("[");
    out.append(comma_join(items).as_str());
    out.append("]");
    out
}

/// Writes a list of texts, each in quotes.
pub fn quoted_list_of(items: &Vec<String>) -> (out: String)
    ensures
        out@ == list_text(quoted_all(items@)),
{
    list_of(&quote_all(items))
}

/// Writes a field whose value is already written.
pub fn field_of(name: &str, value: &str) -> (out: String)
    ensures
        out@ == field_text(name@, value@),
{
    let mut out: String = joined(name, ": ");
    out.append(value);
    out
}

/// Writes a field whose value is a text, in quotes.
pub fn quoted_field_of(name: &str, value: &str) -> (out: String)
    ensures
        out@ == field_text(name@, quoted(value@)),
{
    field_of(name, quote(value).as_str())
}

/// Writes a structure whose fields are already written.
pub fn struct_of(name: &str, fields: &Vec<String>) -> (out: String)
    ensures
        out@ == struct_text(name@, texts(fields@)),
{
    let mut out: String = joined(name, " { ");
    out.append(comma_join(fields).as_str());
    out.append(" }");
    out
}

} // verus!
