//! The texts that notes travel in: fields and tags joined into one string.

use itertools::Itertools;
use vstd::prelude::*;

verus! {

/// `String::push` appends one character.
pub assume_specification[ String::push ](s: &mut String, c: char)
    ensures
        final(s)@ == old(s)@.push(c),
;

/// The characters of each string.
pub open spec fn texts(strings: Seq<String>) -> Seq<Seq<char>> {
    strings.map_values(|s: String| s@)
}

/// The items in order, with `sep` between each two.
pub open spec fn joined(items: Seq<Seq<char>>, sep: Seq<char>) -> Seq<char>
    decreases items.len(),
{
    if items.len() == 0 {
        seq![]
    } else if items.len() == 1 {
        items[0]
    } else {
        joined(items.drop_last(), sep) + sep + items.last()
    }
}

/// The stretches of `s` between the characters that `sep` holds of.
pub open spec fn pieces(s: Seq<char>, sep: spec_fn(char) -> bool) -> Seq<Seq<char>>
    decreases s.len(),
{
    if s.len() == 0 {
        seq![seq![]]
    } else {
        let before = pieces(s.drop_last(), sep);
        if sep(s.last()) {
            before.push(seq![])
        } else {
            before.drop_last().push(before.last().push(s.last()))
        }
    }
}

/// What stands between two fields of a note.
pub open spec fn field_separator() -> spec_fn(char) -> bool {
    |c: char| c == '\x1f'
}

/// What stands between two tags of a note: a space, narrow or ideographic.
pub open spec fn tag_separator() -> spec_fn(char) -> bool {
    |c: char| c == ' ' || c == '\u{3000}'
}

/// The tags in a text: what stands between separators, but for empty stretches.
pub open spec fn tags_in(s: Seq<char>) -> Seq<Seq<char>> {
    pieces(s, tag_separator()).filter(|tag: Seq<char>| tag.len() > 0)
}

/// The text that holds the tags: set off by spaces on both sides, or empty without tags.
pub open spec fn tags_text(tags: Seq<Seq<char>>) -> Seq<char> {
    if tags.len() == 0 {
        seq![]
    } else {
        seq![' '] + joined(tags, seq![' ']) + seq![' ']
    }
}

/// What `split` divides a text at.
#[derive(Debug, Clone, Copy, PartialEq, Eq, Structural)]
pub enum Separator {
    Field,
    Tag,
}

impl Separator {
    pub open spec fn holds(self) -> spec_fn(char) -> bool {
        match self {
            Separator::Field => field_separator(),
            Separator::Tag => tag_separator(),
        }
    }

    fn is(self, c: char) -> (b: bool)
        ensures
            b == (self.holds())(c),
    {
        match self {
            Separator::Field => c == '\x1f',
            Separator::Tag => c == ' ' || c == '\u{3000}',
        }
    }
}

/// The items in order, with `sep` between each two.
///
/// Calls `itertools::Itertools::join`, which writes the first item and then, for each
/// further one, the separator and the item. A string is written as it is.
#[verifier::external_body]
fn join(items: &Vec<String>, sep: &str) -> (res: String)
    requires
        sep@.len() <= 1,
    ensures
        res@ == joined(texts(items@), sep@),
{
    items.iter().join(sep)
}

/// The stretches of a text between separators, in order.
pub fn split(s: &str, sep: Separator) -> (res: Vec<String>)
    ensures
        texts(res@) == pieces(s@, sep.holds()),
{
    let mut res: Vec<String> = Vec::new();
    let mut piece = String::new();
    proof {
        assert(s@.take(0) =~= seq![]);
        assert(texts(res@).push(piece@) =~= pieces(s@.take(0), sep.holds()));
    }
    for c in it: s.chars()
        invariant
            it.seq() == s@,
            texts(res@).push(piece@) =~= pieces(s@.take(it.index() as int), sep.holds()),
    {
        let ghost i = it.index() as int;
        let ghost next = s@.take(i + 1);
        let ghost done = texts(res@);
        assert(next.drop_last() =~= s@.take(i));
        assert(done.push(piece@).drop_last() =~= done);
        if sep.is(c) {
            res.push(piece);
            assert(texts(res@) =~= done.push(piece@));
            piece = String::new();
        } else {
            piece.push(c);
        }
    }
    assert(s@.take(s@.len() as int) =~= s@);
    let ghost done = texts(res@);
    res.push(piece);
    assert(texts(res@) =~= done.push(piece@));
    res
}

/// The fields of a note, out of the text that holds them.
pub fn split_fields(s: &str) -> (res: Vec<String>)
    ensures
        texts(res@) == pieces(s@, field_separator()),
{
    split(s, Separator::Field)
}

/// The text that holds the fields of a note.
pub fn join_fields(fields: &Vec<String>) -> (res: String)
    ensures
        res@ == joined(texts(fields@), seq!['\x1f']),
{
    proof {
        reveal_strlit("\x1f");
        assert("\x1f"@ =~= seq!['\x1f']);
    }
    join(fields, "\x1f")
}

/// The tags of a note, out of the text that holds them.
pub fn split_tags(s: &str) -> (res: Vec<String>)
    ensures
        texts(res@) == tags_in(s@),
{
    let all = split(s, Separator::Tag);
    let ghost nonempty = |tag: Seq<char>| tag.len() > 0;
    let mut res: Vec<String> = Vec::new();
    assert(texts(all@).take(0).filter(nonempty) =~= seq![]);
    for tag in it: all
        invariant
            it.seq() == all@,
            nonempty == (|tag: Seq<char>| tag.len() > 0),
            texts(res@) =~= texts(all@).take(it.index() as int).filter(nonempty),
    {
        let ghost i = it.index() as int;
        let ghost kept = texts(res@);
        proof {
            reveal(Seq::filter);
            assert(texts(all@).take(i + 1).drop_last() =~= texts(all@).take(i));
        }
        if !tag.as_str().is_empty() {
            res.push(tag);
            assert(texts(res@) =~= kept.push(tag@));
        }
    }
    assert(texts(all@).take(all@.len() as int) =~= texts(all@));
    res
}

/// The text that holds the tags of a note.
pub fn join_tags(tags: &Vec<String>) -> (res: String)
    ensures
        res@ == tags_text(texts(tags@)),
{
    if tags.len() == 0 {
        String::new()
    } else {
        proof {
            reveal_strlit(" ");
            assert(" "@ =~= seq![' ']);
        }
        let mut res = String::new();
        res.push(' ');
        res.append(join(tags, " ").as_str());
        res.push(' ');
        assert(res@ =~= tags_text(texts(tags@)));
        res
    }
}

/// No item holds a character that `sep` holds of.
pub open spec fn free_of(items: Seq<Seq<char>>, sep: spec_fn(char) -> bool) -> bool {
    forall|i: int, j: int|
        0 <= i < items.len() && 0 <= j < items[i].len() ==> !sep(#[trigger] items[i][j])
}

/// There is always a stretch, if only an empty one.
pub proof fn lemma_pieces_nonempty(s: Seq<char>, sep: spec_fn(char) -> bool)
    ensures
        pieces(s, sep).len() > 0,
    decreases s.len(),
{
    if s.len() > 0 {
        lemma_pieces_nonempty(s.drop_last(), sep);
    }
}

/// A text without separators is one stretch.
pub proof fn lemma_pieces_whole(s: Seq<char>, sep: spec_fn(char) -> bool)
    requires
        forall|i: int| 0 <= i < s.len() ==> !sep(#[trigger] s[i]),
    ensures
        pieces(s, sep) == seq![s],
    decreases s.len(),
{
    if s.len() > 0 {
        let front = s.drop_last();
        assert forall|i: int| 0 <= i < front.len() implies !sep(#[trigger] front[i]) by {
            assert(front[i] == s[i]);
        }
        lemma_pieces_whole(front, sep);
        assert(front.push(s.last()) =~= s);
        assert(pieces(s, sep) =~= seq![s]);
    } else {
        assert(s =~= seq![]);
    }
}

/// A text with a separator in it has the stretches of what stands before and after that.
pub proof fn lemma_pieces_concat(a: Seq<char>, c: char, b: Seq<char>, sep: spec_fn(char) -> bool)
    requires
        sep(c),
    ensures
        pieces(a + seq![c] + b, sep) == pieces(a, sep) + pieces(b, sep),
    decreases b.len(),
{
    let s = a + seq![c] + b;
    if b.len() == 0 {
        assert(s.drop_last() =~= a);
        assert(pieces(b, sep) =~= seq![seq![]]);
        assert(pieces(s, sep) =~= pieces(a, sep) + pieces(b, sep));
    } else {
        assert(s.drop_last() =~= a + seq![c] + b.drop_last());
        lemma_pieces_concat(a, c, b.drop_last(), sep);
        lemma_pieces_nonempty(b.drop_last(), sep);
        assert(pieces(s, sep) =~= pieces(a, sep) + pieces(b, sep));
    }
}

proof fn lemma_pieces_joined(items: Seq<Seq<char>>, c: char, sep: spec_fn(char) -> bool)
    requires
        items.len() > 0,
        sep(c),
        free_of(items, sep),
    ensures
        pieces(joined(items, seq![c]), sep) == items,
    decreases items.len(),
{
    let last = items.last();
    assert forall|j: int| 0 <= j < last.len() implies !sep(#[trigger] last[j]) by {
        assert(!sep(items[items.len() - 1][j]));
    }
    lemma_pieces_whole(last, sep);
    if items.len() == 1 {
        assert(items =~= seq![last]);
    } else {
        let front = items.drop_last();
        assert(free_of(front, sep)) by {
            assert forall|i: int, j: int|
                0 <= i < front.len() && 0 <= j < front[i].len() implies !sep(
                #[trigger] front[i][j]) by {
                assert(!sep(items[i][j]));
            }
        }
        lemma_pieces_joined(front, c, sep);
        lemma_pieces_concat(joined(front, seq![c]), c, last, sep);
        assert(front + seq![last] =~= items);
    }
}

/// The fields that a text is split into give the same text when joined again.
pub proof fn law_split_fields_join_back(s: Seq<char>)
    ensures
        joined(pieces(s, field_separator()), seq!['\x1f']) == s,
    decreases s.len(),
{
    let sep = field_separator();
    let all = pieces(s, sep);
    if s.len() == 0 {
        assert(joined(all, seq!['\x1f']) =~= s);
    } else {
        let front = s.drop_last();
        let before = pieces(front, sep);
        law_split_fields_join_back(front);
        lemma_pieces_nonempty(front, sep);
        if sep(s.last()) {
            assert(all.drop_last() =~= before);
            assert(joined(all, seq!['\x1f']) =~= s);
        } else {
            assert(all.drop_last() =~= before.drop_last());
            assert(joined(all, seq!['\x1f']) =~= joined(before, seq!['\x1f']).push(s.last()));
            assert(front.push(s.last()) =~= s);
        }
    }
}

/// Fields that are joined come out of the text as they went in, if there is at least one
/// and none of them holds the separator.
pub proof fn law_joined_fields_split_back(fields: Seq<Seq<char>>)
    requires
        fields.len() > 0,
        free_of(fields, field_separator()),
    ensures
        pieces(joined(fields, seq!['\x1f']), field_separator()) == fields,
{
    lemma_pieces_joined(fields, '\x1f', field_separator());
}

/// Tags that are joined come out of the text as they went in, if none of them is empty or
/// holds a space.
pub proof fn law_joined_tags_split_back(tags: Seq<Seq<char>>)
    requires
        free_of(tags, tag_separator()),
        forall|i: int| 0 <= i < tags.len() ==> (#[trigger] tags[i]).len() > 0,
    ensures
        tags_in(tags_text(tags)) == tags,
{
    let sep = tag_separator();
    let nonempty = |tag: Seq<char>| tag.len() > 0;
    let none: Seq<char> = seq![];
    reveal_with_fuel(Seq::filter, 2);
    assert(seq![none].drop_last() =~= Seq::<Seq<char>>::empty());
    assert(!nonempty(seq![none].last()));
    assert(seq![none].filter(nonempty) =~= seq![]);
    if tags.len() == 0 {
        assert(tags_in(tags_text(tags)) =~= tags);
    } else {
        let inner = joined(tags, seq![' ']);
        lemma_pieces_joined(tags, ' ', sep);
        lemma_pieces_concat(none, ' ', inner, sep);
        lemma_pieces_concat(none + seq![' '] + inner, ' ', none, sep);
        let s = tags_text(tags);
        assert(s =~= none + seq![' '] + inner + seq![' '] + none);
        assert(pieces(s, sep) == seq![none] + tags + seq![none]);
        Seq::filter_distributes_over_add(seq![none] + tags, seq![none], nonempty);
        Seq::filter_distributes_over_add(seq![none], tags, nonempty);
        lemma_filter_all(tags, nonempty);
        assert(tags_in(s) =~= tags);
    }
}

proof fn lemma_filter_all<A>(s: Seq<A>, keep: spec_fn(A) -> bool)
    requires
        forall|i: int| 0 <= i < s.len() ==> keep(#[trigger] s[i]),
    ensures
        s.filter(keep) == s,
    decreases s.len(),
{
    reveal(Seq::filter);
    if s.len() > 0 {
        let front = s.drop_last();
        assert forall|i: int| 0 <= i < front.len() implies keep(#[trigger] front[i]) by {
            assert(front[i] == s[i]);
        }
        lemma_filter_all(front, keep);
        assert(front.push(s.last()) =~= s);
    }
}

proof fn lemma_pieces_free(s: Seq<char>, sep: spec_fn(char) -> bool)
    ensures
        free_of(pieces(s, sep), sep),
    decreases s.len(),
{
    if s.len() > 0 {
        let front = s.drop_last();
        let before = pieces(front, sep);
        let all = pieces(s, sep);
        lemma_pieces_free(front, sep);
        lemma_pieces_nonempty(front, sep);
        assert forall|i: int, j: int| 0 <= i < all.len() && 0 <= j < all[i].len() implies !sep(
            #[trigger] all[i][j],
        ) by {
            if i < before.len() && j < before[i].len() {
                assert(!sep(before[i][j]));
            }
        }
    }
}

/// Tags that were taken out of a text go back into one from which the same tags are taken.
pub proof fn law_split_tags_stay_the_same(s: Seq<char>)
    ensures
        tags_in(tags_text(tags_in(s))) == tags_in(s),
{
    let sep = tag_separator();
    let nonempty = |tag: Seq<char>| tag.len() > 0;
    let all = pieces(s, sep);
    let tags = all.filter(nonempty);
    lemma_pieces_free(s, sep);
    assert forall|i: int| 0 <= i < tags.len() implies (#[trigger] tags[i]).len() > 0
        && all.contains(tags[i]) by {
        all.lemma_filter_pred(nonempty, i);
        all.lemma_filter_contains_rev(nonempty, tags[i]);
    }
    assert forall|i: int, j: int| 0 <= i < tags.len() && 0 <= j < tags[i].len() implies !sep(
        #[trigger] tags[i][j],
    ) by {
        assert(all.contains(tags[i]));
        let k = choose|k: int| 0 <= k < all.len() && all[k] == tags[i];
        assert(!sep(all[k][j]));
    }
    law_joined_tags_split_back(tags);
}

} // verus!
