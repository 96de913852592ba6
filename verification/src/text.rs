//! Facts about character sequences that the request builder's contracts use:
//! joining names with commas, reading them back, and occurrences of one text
//! in another.

use vstd::prelude::*;
use vstd::utf8::encode_utf8;

verus! {

/// The names joined by single commas, in order.
pub open spec fn comma_joined(names: Seq<Seq<char>>) -> Seq<char>
    decreases names.len(),
{
    if names.len() == 0 {
        Seq::empty()
    } else if names.len() == 1 {
        names[0]
    } else {
        names[0] + seq![','] + comma_joined(names.drop_first())
    }
}

/// The pieces of a text between its commas, in order. A text without a comma
/// is one piece.
pub open spec fn comma_split(text: Seq<char>) -> Seq<Seq<char>>
    decreases text.len(),
{
    if text.len() == 0 {
        seq![Seq::empty()]
    } else {
        let rest = comma_split(text.drop_first());
        if text[0] == ',' {
            seq![Seq::empty()] + rest
        } else {
            seq![seq![text[0]] + rest[0]] + rest.drop_first()
        }
    }
}

/// Whether `pattern` stands somewhere in `text` as a contiguous run.
pub open spec fn occurs_in(pattern: Seq<char>, text: Seq<char>) -> bool {
    exists|i: int|
        0 <= i && i + pattern.len() <= text.len() && #[trigger] text.subrange(
            i,
            i + pattern.len(),
        ) == pattern
}

/// Joining one more name after a non-empty list adds a comma and the name.
pub proof fn lemma_comma_joined_push(names: Seq<Seq<char>>, name: Seq<char>)
    requires
        names.len() > 0,
    ensures
        comma_joined(names.push(name)) == comma_joined(names) + seq![','] + name,
    decreases names.len(),
{
    let longer = names.push(name);
    if names.len() == 1 {
        assert(longer.drop_first() =~= seq![name]);
        assert(comma_joined(seq![name]) == name);
    } else {
        lemma_comma_joined_push(names.drop_first(), name);
        assert(longer.drop_first() =~= names.drop_first().push(name));
        assert(comma_joined(longer) =~= comma_joined(names) + seq![','] + name);
    }
}

/// A split always yields at least one piece.
pub proof fn lemma_comma_split_nonempty(text: Seq<char>)
    ensures
        comma_split(text).len() >= 1,
    decreases text.len(),
{
    if text.len() > 0 {
        lemma_comma_split_nonempty(text.drop_first());
    }
}

/// A comma-free text in front of another joins the other's first piece.
pub proof fn lemma_comma_split_prefix(head: Seq<char>, tail: Seq<char>)
    requires
        !head.contains(','),
    ensures
        comma_split(head + tail) == seq![head + comma_split(tail)[0]] + comma_split(
            tail,
        ).drop_first(),
    decreases head.len(),
{
    lemma_comma_split_nonempty(tail);
    if head.len() == 0 {
        assert(head + tail =~= tail);
        assert(head + comma_split(tail)[0] =~= comma_split(tail)[0]);
        assert(comma_split(tail) =~= seq![comma_split(tail)[0]] + comma_split(tail).drop_first());
    } else {
        let shorter = head.drop_first();
        assert(head[0] != ',');
        assert forall|i: int| 0 <= i < shorter.len() implies shorter[i] != ',' by {
            assert(shorter[i] == head[i + 1]);
        }
        lemma_comma_split_prefix(shorter, tail);
        assert((head + tail).drop_first() =~= shorter + tail);
        assert(seq![head[0]] + (shorter + comma_split(tail)[0]) =~= head + comma_split(tail)[0]);
    }
}

/// Names without commas are read back from their joined text, in the order
/// in which they were joined and as often as they were given.
pub proof fn lemma_comma_split_joined(names: Seq<Seq<char>>)
    requires
        names.len() > 0,
        forall|i: int| 0 <= i < names.len() ==> !(#[trigger] names[i]).contains(','),
    ensures
        comma_split(comma_joined(names)) == names,
    decreases names.len(),
{
    let first = names[0];
    if names.len() == 1 {
        lemma_comma_split_prefix(first, Seq::empty());
        assert(first + Seq::<char>::empty() =~= first);
        assert(comma_split(Seq::<char>::empty()) =~= seq![Seq::<char>::empty()]);
        assert(comma_split(first) =~= names);
    } else {
        let rest = names.drop_first();
        let tail = seq![','] + comma_joined(rest);
        assert forall|i: int| 0 <= i < rest.len() implies !(#[trigger] rest[i]).contains(',') by {
            assert(rest[i] == names[i + 1]);
        }
        lemma_comma_split_joined(rest);
        lemma_comma_split_prefix(first, tail);
        assert(tail.drop_first() =~= comma_joined(rest));
        assert(comma_split(tail) =~= seq![Seq::<char>::empty()] + rest);
        assert(first + comma_split(tail)[0] =~= first);
        assert(comma_joined(names) =~= first + tail);
        assert(comma_split(first + tail) =~= names);
    }
}

/// The UTF-8 bytes of two texts in a row are the bytes of the first followed
/// by the bytes of the second.
pub proof fn lemma_encode_utf8_concat(a: Seq<char>, b: Seq<char>)
    ensures
        encode_utf8(a + b) == encode_utf8(a) + encode_utf8(b),
    decreases a.len(),
{
    if a.len() == 0 {
        assert(a + b =~= b);
        assert(encode_utf8(a) + encode_utf8(b) =~= encode_utf8(b));
    } else {
        lemma_encode_utf8_concat(a.drop_first(), b);
        assert((a + b).drop_first() =~= a.drop_first() + b);
        assert(encode_utf8(a + b) =~= encode_utf8(a) + encode_utf8(b));
    }
}

} // verus!
