//! Lines that several resources share: bullets, shortened references,
//! collections and the health line.

use vstd::prelude::*;
use vstd::string::*;
use crate::model::{enabled, MemberList, Reference, Status};
use crate::text::{
    decimal,
    decimal_text,
    joined,
    lemma_prefix_removed,
    remove_all,
    texts,
    without,
};

verus! {

/// One line per item: `lead` followed by the item.
pub open spec fn bullet_lines(lead: Seq<char>, items: Seq<Seq<char>>) -> Seq<Seq<char>> {
    Seq::new(items.len(), |i: int| lead + items[i])
}

/// The short names of several references, in the order given.
pub open spec fn short_names(references: Seq<Reference>, prefix: Seq<char>) -> Seq<Seq<char>> {
    Seq::new(references.len(), |i: int| short_name(references[i], prefix))
}

/// The short name of a reference: its path with `prefix` taken out.
pub open spec fn short_name(reference: Reference, prefix: Seq<char>) -> Seq<char> {
    without(reference.name@, prefix)
}

/// One line per reference, in the order given: a dash and the short name.
pub open spec fn short_lines(references: Seq<Reference>, prefix: Seq<char>) -> Seq<Seq<char>> {
    Seq::new(references.len(), |i: int| "- "@ + short_name(references[i], prefix))
}

/// The line that says how many members of `kind` a collection has.
pub open spec fn count_line(count: nat, kind: Seq<char>) -> Seq<char> {
    "Found "@ + decimal_text(count) + " "@ + kind + "(s):"@
}

/// The lines that show a collection: the count, then one line per member.
pub open spec fn list_lines(
    list: MemberList,
    kind: Seq<char>,
    prefix: Seq<char>,
) -> Seq<Seq<char>> {
    seq![count_line(list.members@.len(), kind)] + short_lines(list.members@, prefix)
}

/// The health line under `label`: present exactly when the resource is
/// enabled.
pub open spec fn status_lines(label: Seq<char>, status: Status) -> Seq<Seq<char>> {
    if enabled(status) {
        seq![label + status.health@]
    } else {
        Seq::empty()
    }
}

/// A reference made of a prefix that ends in a slash and an identifier
/// without a slash has that identifier as its short name, and no slash is
/// left in it.
pub proof fn lemma_short_name_of_well_formed(
    reference: Reference,
    prefix: Seq<char>,
    id: Seq<char>,
)
    requires
        prefix.len() > 0,
        prefix.last() == '/',
        !id.contains('/'),
        reference.name@ == prefix + id,
    ensures
        short_name(reference, prefix) == id,
        !short_name(reference, prefix).contains('/'),
{
    lemma_prefix_removed(prefix, id);
}

/// A collection is shown as one line more than it has members: first the
/// line that counts the members, then the members' short names in the
/// order of the collection.
pub proof fn lemma_list_lines_shape(list: MemberList, kind: Seq<char>, prefix: Seq<char>)
    ensures
        list_lines(list, kind, prefix).len() == 1 + list.members@.len(),
        list_lines(list, kind, prefix)[0] == count_line(list.members@.len(), kind),
        forall|i: int|
            0 <= i < list.members@.len() ==> #[trigger] list_lines(list, kind, prefix)[1 + i]
                == "- "@ + short_name(list.members@[i], prefix),
{
}

/// Appends one line.
pub fn push_line(lines: &mut Vec<String>, line: String)
    ensures
        texts(final(lines)@) == texts(old(lines)@) + seq![line@],
{
    lines.push(line);
    assert(texts(final(lines)@) =~= texts(old(lines)@) + seq![line@]);
}

/// Appends one line per item: `lead` followed by the item.
pub fn push_bullets(lines: &mut Vec<String>, lead: &str, items: &Vec<String>)
    ensures
        texts(final(lines)@) == texts(old(lines)@) + bullet_lines(lead@, texts(items@)),
{
    let ghost before = texts(lines@);
    let mut i: usize = 0;
    assert(before + bullet_lines(lead@, texts(items@)).take(0) =~= before);
    while i < items.len()
        invariant
            i <= items.len(),
            texts(lines@) == before + bullet_lines(lead@, texts(items@)).take(i as int),
        decreases items.len() - i,
    {
        push_line(lines, joined(lead, items[i].as_str()));
        i += 1;
        assert(before + bullet_lines(lead@, texts(items@)).take(i - 1) + seq![lead@ + items@[i - 1]@]
            =~= before + bullet_lines(lead@, texts(items@)).take(i as int));
    }
    assert(bullet_lines(lead@, texts(items@)).take(i as int) =~= bullet_lines(lead@, texts(items@)));
}

/// Writes the short name of a reference.
pub fn shorten(reference: &Reference, prefix: &str) -> (name: String)
    ensures
        name@ == short_name(*reference, prefix@),
{
    remove_all(reference.name.as_str(), prefix)
}

/// Appends the short name of each reference.
pub fn push_names(names: &mut Vec<String>, references: &Vec<Reference>, prefix: &str)
    ensures
        texts(final(names)@) == texts(old(names)@) + short_names(references@, prefix@),
{
    let ghost before = texts(names@);
    let mut i: usize = 0;
    assert(before + short_names(references@, prefix@).take(0) =~= before);
    while i < references.len()
        invariant
            i <= references.len(),
            texts(names@) == before + short_names(references@, prefix@).take(i as int),
        decreases references.len() - i,
    {
        push_line(names, shorten(&references[i], prefix));
        i += 1;
        assert(before + short_names(references@, prefix@).take(i - 1) + seq![
            short_name(references@[i - 1], prefix@),
        ] =~= before + short_names(references@, prefix@).take(i as int));
    }
    assert(short_names(references@, prefix@).take(i as int) =~= short_names(
        references@,
        prefix@,
    ));
}

/// Appends one line per reference: a dash and the short name.
pub fn push_short_names(lines: &mut Vec<String>, references: &Vec<Reference>, prefix: &str)
    ensures
        texts(final(lines)@) == texts(old(lines)@) + short_lines(references@, prefix@),
{
    let ghost before = texts(lines@);
    let mut i: usize = 0;
    assert(before + short_lines(references@, prefix@).take(0) =~= before);
    while i < references.len()
        invariant
            i <= references.len(),
            texts(lines@) == before + short_lines(references@, prefix@).take(i as int),
        decreases references.len() - i,
    {
        let name: String = shorten(&references[i], prefix);
        push_line(lines, joined("- ", name.as_str()));
        i += 1;
        assert(before + short_lines(references@, prefix@).take(i - 1) + seq![
            "- "@ + short_name(references@[i - 1], prefix@),
        ] =~= before + short_lines(references@, prefix@).take(i as int));
    }
    assert(short_lines(references@, prefix@).take(i as int) =~= short_lines(
        references@,
        prefix@,
    ));
}

/// The lines that show a collection of `kind`: first how many members it
/// has, then each member's short name, in the order of the collection.
pub fn list_members(list: &MemberList, kind: &str, prefix: &str) -> (lines: Vec<String>)
    ensures
        texts(lines@) == list_lines(*list, kind@, prefix@),
        lines@.len() == 1 + list.members@.len(),
        lines@[0]@ == count_line(list.members@.len(), kind@),
        forall|i: int|
            0 <= i < list.members@.len() ==> #[trigger] lines@[1 + i]@ == "- "@ + short_name(
                list.members@[i],
                prefix@,
            ),
{
    let mut head: String = String::from_str("Found ");
    head.append(decimal(list.members.len() as u64).as_str());
    head.append(" ");
    head.append(kind);
    head.append("(s):");
    let mut lines: Vec<String> = Vec::new();
    lines.push(head);
    assert(texts(lines@) =~= seq![count_line(list.members@.len(), kind@)]);
    push_short_names(&mut lines, &list.members, prefix);
    proof {
        let spec_lines = list_lines(*list, kind@, prefix@);
        assert(texts(lines@).len() == spec_lines.len());
        assert(texts(lines@)[0] == spec_lines[0]);
        assert forall|i: int| 0 <= i < list.members@.len() implies #[trigger] lines@[1 + i]@ == "- "@
            + short_name(list.members@[i], prefix@) by {
            assert(texts(lines@)[1 + i] == spec_lines[1 + i]);
        }
    }
    lines
}

/// A state other than `Enabled` shows no health line, whatever the health;
/// `Disabled` and `Absent` are such states.
pub proof fn lemma_status_gate(label: Seq<char>, status: Status)
    ensures
        enabled(status) ==> status_lines(label, status) == seq![label + status.health@],
        !enabled(status) ==> status_lines(label, status).len() == 0,
        status.state@ == "Disabled"@ || status.state@ == "Absent"@ ==> !enabled(status),
{
    reveal_strlit("Enabled");
    reveal_strlit("Disabled");
    reveal_strlit("Absent");
    assert("Enabled"@.len() == 7);
    assert("Disabled"@.len() == 8);
    assert("Absent"@.len() == 6);
}

/// Appends the health line under `label` to `lines` if the resource is
/// enabled, and nothing otherwise.
pub fn push_status(lines: &mut Vec<String>, label: &str, status: &Status)
    ensures
        texts(final(lines)@) == texts(old(lines)@) + status_lines(label@, *status),
{
    if status.is_enabled() {
        lines.push(joined(label, status.health.as_str()));
    }
    assert(texts(final(lines)@) =~= texts(old(lines)@) + status_lines(label@, *status));
}

} // verus!
