//! On the texts that fields and tags are joined into.

use crate::text;
use crate::text::{join_fields, join_tags, split, split_fields, split_tags, Separator};
use vstd::prelude::*;

verus! {

/// The strings have these texts, in this order.
pub open spec fn read(strings: Seq<String>, texts: Seq<Seq<char>>) -> bool {
    &&& strings.len() == texts.len()
    &&& forall|i: int| 0 <= i < texts.len() ==> (#[trigger] strings[i])@ == texts[i]
}

proof fn lemma_read(strings: Seq<String>)
    ensures
        read(strings, text::texts(strings)),
{
}

/// The strings are those of the one followed by those of the other, read for read.
pub open spec fn one_then_other(all: Seq<String>, a: Seq<String>, b: Seq<String>) -> bool {
    &&& all.len() == a.len() + b.len()
    &&& forall|i: int| 0 <= i < a.len() ==> (#[trigger] all[i])@ == a[i]@
    &&& forall|i: int| 0 <= i < b.len() ==> (#[trigger] all[a.len() + i])@ == b[i]@
}

proof fn lemma_one_then_other(all: Seq<String>, a: Seq<String>, b: Seq<String>)
    requires
        text::texts(all) == text::texts(a) + text::texts(b),
    ensures
        one_then_other(all, a, b),
{
    let s = text::texts(all);
    assert(s.len() == all.len());
    assert(text::texts(a).len() == a.len());
    assert(text::texts(b).len() == b.len());
    assert forall|i: int| 0 <= i < a.len() implies (#[trigger] all[i])@ == a[i]@ by {
        assert(s[i] == all[i]@);
        assert(text::texts(a)[i] == a[i]@);
    }
    assert forall|i: int| 0 <= i < b.len() implies (#[trigger] all[a.len() + i])@ == b[i]@ by {
        assert(s[a.len() + i] == all[a.len() + i]@);
        assert(text::texts(b)[i] == b[i]@);
    }
}

/// A text without a separator of fields is one field.
pub proof fn law_text_without_separator_is_one_field(s: &str, res: Vec<String>)
    requires
        call_ensures(split_fields, (s,), res),
        forall|i: int| 0 <= i < s@.len() ==> (#[trigger] s@[i]) != '\x1f',
    ensures
        res@.len() == 1,
        res@[0]@ == s@,
{
    assert forall|i: int| 0 <= i < s@.len() implies !(text::field_separator())(
        #[trigger] s@[i],
    ) by {}
    text::lemma_pieces_whole(s@, text::field_separator());
    lemma_read(res@);
}

/// A text with a separator of fields in it has the fields of what stands before, and then those
/// of what stands after.
pub proof fn law_fields_are_split_at_each_separator(
    before: &str,
    after: &str,
    s: &str,
    first: Vec<String>,
    second: Vec<String>,
    res: Vec<String>,
)
    requires
        s@ == before@ + seq!['\x1f'] + after@,
        call_ensures(split_fields, (before,), first),
        call_ensures(split_fields, (after,), second),
        call_ensures(split_fields, (s,), res),
    ensures
        one_then_other(res@, first@, second@),
{
    text::lemma_pieces_concat(before@, '\x1f', after@, text::field_separator());
    lemma_one_then_other(res@, first@, second@);
}

/// One field alone is its own text, and no field at all is no text.
pub proof fn law_one_field_is_its_own_text(fields: Vec<String>, res: String)
    requires
        call_ensures(join_fields, (&fields,), res),
        fields@.len() <= 1,
    ensures
        fields@.len() == 1 ==> res@ == fields@[0]@,
        fields@.len() == 0 ==> res@.len() == 0,
{
    lemma_read(fields@);
}

proof fn lemma_joined_apart(a: Seq<Seq<char>>, b: Seq<Seq<char>>, sep: Seq<char>)
    requires
        a.len() > 0,
        b.len() > 0,
    ensures
        text::joined(a + b, sep) == text::joined(a, sep) + sep + text::joined(b, sep),
    decreases b.len(),
{
    let all = a + b;
    if b.len() == 1 {
        assert(all.drop_last() =~= a);
    } else {
        assert(all.drop_last() =~= a + b.drop_last());
        lemma_joined_apart(a, b.drop_last(), sep);
        assert(text::joined(all, sep) =~= text::joined(a, sep) + sep + text::joined(b, sep));
    }
}

/// Fields are joined with one separator between each two: what comes first, the separator, what
/// comes then.
pub proof fn law_fields_are_joined_by_one_separator(
    before: Vec<String>,
    after: Vec<String>,
    fields: Vec<String>,
    first: String,
    second: String,
    res: String,
)
    requires
        before@.len() > 0,
        after@.len() > 0,
        fields@ == before@ + after@,
        call_ensures(join_fields, (&before,), first),
        call_ensures(join_fields, (&after,), second),
        call_ensures(join_fields, (&fields,), res),
    ensures
        res@ == first@ + seq!['\x1f'] + second@,
{
    assert(text::texts(fields@) =~= text::texts(before@) + text::texts(after@));
    lemma_joined_apart(text::texts(before@), text::texts(after@), seq!['\x1f']);
}

/// A word is one tag, and no text is no tag.
pub proof fn law_word_is_one_tag(s: &str, res: Vec<String>)
    requires
        call_ensures(split_tags, (s,), res),
        forall|i: int|
            0 <= i < s@.len() ==> (#[trigger] s@[i]) != ' ' && s@[i] != '\u{3000}',
    ensures
        s@.len() > 0 ==> res@.len() == 1 && res@[0]@ == s@,
        s@.len() == 0 ==> res@.len() == 0,
{
    let nonempty = |tag: Seq<char>| tag.len() > 0;
    assert forall|i: int| 0 <= i < s@.len() implies !(text::tag_separator())(
        #[trigger] s@[i],
    ) by {}
    text::lemma_pieces_whole(s@, text::tag_separator());
    reveal_with_fuel(Seq::filter, 2);
    assert(seq![s@].drop_last() =~= Seq::<Seq<char>>::empty());
    assert(seq![s@].filter(nonempty) =~= if s@.len() > 0 {
        seq![s@]
    } else {
        seq![]
    });
    lemma_read(res@);
}

/// A text with a space in it, of either kind, has the tags of what stands before, and then those
/// of what stands after.
pub proof fn law_tags_are_split_at_each_space(
    before: &str,
    space: char,
    after: &str,
    s: &str,
    first: Vec<String>,
    second: Vec<String>,
    res: Vec<String>,
)
    requires
        space == ' ' || space == '\u{3000}',
        s@ == before@ + seq![space] + after@,
        call_ensures(split_tags, (before,), first),
        call_ensures(split_tags, (after,), second),
        call_ensures(split_tags, (s,), res),
    ensures
        one_then_other(res@, first@, second@),
{
    let sep = text::tag_separator();
    text::lemma_pieces_concat(before@, space, after@, sep);
    Seq::filter_distributes_over_add(
        text::pieces(before@, sep),
        text::pieces(after@, sep),
        |tag: Seq<char>| tag.len() > 0,
    );
    lemma_one_then_other(res@, first@, second@);
}

/// One tag stands between two spaces, and no tag at all is no text.
pub proof fn law_one_tag_stands_between_spaces(tags: Vec<String>, res: String)
    requires
        call_ensures(join_tags, (&tags,), res),
        tags@.len() <= 1,
    ensures
        tags@.len() == 1 ==> res@ == seq![' '] + tags@[0]@ + seq![' '],
        tags@.len() == 0 ==> res@.len() == 0,
{
    lemma_read(tags@);
}

/// Tags that are joined share the space between them.
pub proof fn law_tags_share_the_space_between_them(
    before: Vec<String>,
    after: Vec<String>,
    tags: Vec<String>,
    first: String,
    second: String,
    res: String,
)
    requires
        before@.len() > 0,
        after@.len() > 0,
        tags@ == before@ + after@,
        call_ensures(join_tags, (&before,), first),
        call_ensures(join_tags, (&after,), second),
        call_ensures(join_tags, (&tags,), res),
    ensures
        res@ == first@.drop_last() + second@,
{
    let a = text::texts(before@);
    let b = text::texts(after@);
    assert(text::texts(tags@) =~= a + b);
    lemma_joined_apart(a, b, seq![' ']);
    assert(res@ =~= first@.drop_last() + second@);
}

/// Splitting by a named separator is splitting into fields, or into the stretches between
/// spaces, empty ones among them.
pub proof fn law_split_goes_by_its_separator(
    before: &str,
    c: char,
    after: &str,
    s: &str,
    sep: Separator,
    first: Vec<String>,
    second: Vec<String>,
    res: Vec<String>,
)
    requires
        sep == Separator::Field ==> c == '\x1f',
        sep == Separator::Tag ==> c == ' ' || c == '\u{3000}',
        s@ == before@ + seq![c] + after@,
        call_ensures(split, (before, sep), first),
        call_ensures(split, (after, sep), second),
        call_ensures(split, (s, sep), res),
    ensures
        one_then_other(res@, first@, second@),
{
    text::lemma_pieces_concat(before@, c, after@, sep.holds());
    lemma_one_then_other(res@, first@, second@);
}

/// Where no separator stands, nothing is split.
pub proof fn law_split_leaves_a_whole_alone(s: &str, sep: Separator, res: Vec<String>)
    requires
        call_ensures(split, (s, sep), res),
        sep == Separator::Field ==> forall|i: int|
            0 <= i < s@.len() ==> (#[trigger] s@[i]) != '\x1f',
        sep == Separator::Tag ==> forall|i: int|
            0 <= i < s@.len() ==> (#[trigger] s@[i]) != ' ' && s@[i] != '\u{3000}',
    ensures
        res@.len() == 1,
        res@[0]@ == s@,
{
    assert forall|i: int| 0 <= i < s@.len() implies !(sep.holds())(#[trigger] s@[i]) by {}
    text::lemma_pieces_whole(s@, sep.holds());
    lemma_read(res@);
}

} // verus!
