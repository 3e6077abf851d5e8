//! Splitting a line of text at single spaces.

use vstd::prelude::*;
use vstd::string::*;
use crate::text::text_views;

verus! {

/// The pieces of `s` between its spaces. Every space ends one piece and
/// starts the next, so a text with `n` spaces has `n + 1` pieces, some of
/// them empty where spaces stand side by side or at an end.
pub open spec fn split_spaces(s: Seq<char>) -> Seq<Seq<char>>
    decreases s.len(),
{
    if s.len() == 0 {
        seq![Seq::<char>::empty()]
    } else {
        let before = split_spaces(s.drop_last());
        if s.last() == ' ' {
            before.push(Seq::<char>::empty())
        } else {
            before.update(before.len() - 1, before.last().push(s.last()))
        }
    }
}

/// The pieces written one after another with a single space between each
/// two neighbours.
pub open spec fn join_spaces(words: Seq<Seq<char>>) -> Seq<char>
    decreases words.len(),
{
    if words.len() == 0 {
        Seq::<char>::empty()
    } else if words.len() == 1 {
        words[0]
    } else {
        join_spaces(words.drop_last()).push(' ') + words.last()
    }
}

/// How many spaces `s` holds.
pub open spec fn count_spaces(s: Seq<char>) -> nat
    decreases s.len(),
{
    if s.len() == 0 {
        0
    } else if s.last() == ' ' {
        count_spaces(s.drop_last()) + 1
    } else {
        count_spaces(s.drop_last())
    }
}

/// Splitting gives one piece more than there are spaces, so at least one.
pub proof fn lemma_split_count(s: Seq<char>)
    ensures
        split_spaces(s).len() == count_spaces(s) + 1,
    decreases s.len(),
{
    if s.len() > 0 {
        lemma_split_count(s.drop_last());
    }
}

/// No piece of a split holds a space.
pub proof fn lemma_split_pieces_hold_no_space(s: Seq<char>)
    ensures
        forall|k: int, j: int|
            0 <= k < split_spaces(s).len() && 0 <= j < split_spaces(s)[k].len()
                ==> #[trigger] split_spaces(s)[k][j] != ' ',
        pieces_hold_no_space(split_spaces(s)),
    decreases s.len(),
{
    if s.len() > 0 {
        lemma_split_count(s.drop_last());
        lemma_split_pieces_hold_no_space(s.drop_last());
    }
}

/// Joining the pieces of a split with single spaces gives the text back.
pub proof fn lemma_join_split(s: Seq<char>)
    ensures
        join_spaces(split_spaces(s)) == s,
    decreases s.len(),
{
    if s.len() == 0 {
        assert(join_spaces(split_spaces(s)) =~= s);
    } else {
        let init = s.drop_last();
        let before = split_spaces(init);
        lemma_split_count(init);
        lemma_join_split(init);
        if s.last() == ' ' {
            let after = before.push(Seq::<char>::empty());
            assert(after.drop_last() =~= before);
            assert(join_spaces(after) =~= s);
        } else {
            let after = before.update(before.len() - 1, before.last().push(s.last()));
            if before.len() == 1 {
                assert(join_spaces(after) =~= s);
            } else {
                assert(after.drop_last() =~= before.drop_last());
                assert(join_spaces(after) =~= join_spaces(before).push(s.last()));
                assert(join_spaces(after) =~= s);
            }
        }
    }
}

/// Whether no piece holds a space.
pub open spec fn pieces_hold_no_space(words: Seq<Seq<char>>) -> bool {
    forall|k: int, j: int|
        0 <= k < words.len() && 0 <= j < words[k].len() ==> #[trigger] words[k][j] != ' '
}

/// The split is the only way of cutting a text at its spaces: pieces
/// without a space that give the text when they are joined are the pieces
/// of its split.
pub proof fn lemma_split_is_unique(s: Seq<char>, words: Seq<Seq<char>>)
    requires
        words.len() >= 1,
        pieces_hold_no_space(words),
        join_spaces(words) == s,
    ensures
        words == split_spaces(s),
    decreases s.len(),
{
    let n = words.len() as int;
    let w = words.last();
    let rest = words.drop_last();
    if n >= 2 {
        assert(s =~= join_spaces(rest).push(' ') + w);
    } else {
        assert(s =~= w);
    }
    if w.len() == 0 {
        assert(w =~= Seq::<char>::empty());
        if n >= 2 {
            assert(s.last() == ' ');
            assert(s.drop_last() =~= join_spaces(rest));
            assert forall|k: int, j: int|
                0 <= k < rest.len() && 0 <= j < rest[k].len() implies #[trigger] rest[k][j]
                != ' ' by {
                assert(rest[k][j] == words[k][j]);
            }
            lemma_split_is_unique(s.drop_last(), rest);
            assert(words =~= rest.push(Seq::<char>::empty()));
        } else {
            assert(words =~= seq![Seq::<char>::empty()]);
        }
    } else {
        let shorter = words.update(n - 1, w.drop_last());
        assert(s.last() == w.last());
        assert(w.last() == words[n - 1][w.len() - 1]);
        assert forall|k: int, j: int|
            0 <= k < shorter.len() && 0 <= j < shorter[k].len() implies #[trigger] shorter[k][j]
            != ' ' by {
            assert(shorter[k][j] == words[k][j]);
        }
        assert(shorter.drop_last() =~= rest);
        if n >= 2 {
            assert(join_spaces(shorter) =~= join_spaces(rest).push(' ') + w.drop_last());
        }
        assert(s.drop_last() =~= join_spaces(shorter));
        lemma_split_is_unique(s.drop_last(), shorter);
        assert(w.drop_last().push(w.last()) =~= w);
        assert(words =~= shorter.update(n - 1, shorter.last().push(s.last())));
    }
}

/// A text splits into a single piece exactly when it holds no space, and
/// that piece is then the text itself.
pub proof fn lemma_single_piece(s: Seq<char>)
    ensures
        split_spaces(s).len() == 1 <==> !s.contains(' '),
        split_spaces(s).len() == 1 ==> split_spaces(s)[0] == s,
    decreases s.len(),
{
    lemma_split_count(s);
    lemma_join_split(s);
    if s.len() > 0 {
        let init = s.drop_last();
        lemma_single_piece(init);
        lemma_split_count(init);
        if s.last() == ' ' {
            assert(s[s.len() - 1] == ' ');
        } else {
            if init.contains(' ') {
                let i = choose|i: int| 0 <= i < init.len() && init[i] == ' ';
                assert(s[i] == ' ');
            }
            if s.contains(' ') {
                let i = choose|i: int| 0 <= i < s.len() && s[i] == ' ';
                assert(init[i] == ' ');
            }
        }
    }
}

/// Splits `text` at every single space.
pub fn split_words(text: &str) -> (words: Vec<String>)
    ensures
        text_views(words@) == split_spaces(text@),
{
    let n: usize = text.unicode_len();
    let mut words: Vec<String> = Vec::new();
    let mut start: usize = 0;
    let mut i: usize = 0;
    assert(text@.subrange(0, 0) =~= Seq::<char>::empty());
    assert(text_views(words@).push(text@.subrange(0, 0)) =~= split_spaces(text@.subrange(0, 0)));
    for c in chars: text.chars()
        invariant
            n == text@.len(),
            chars.seq() == text@,
            i == chars.index(),
            start <= i,
            text_views(words@).push(text@.subrange(start as int, i as int)) == split_spaces(
                text@.subrange(0, i as int),
            ),
    {
        let ghost seen = text@.subrange(0, i as int);
        let ghost next = text@.subrange(0, i + 1);
        assert(next.drop_last() =~= seen);
        assert(next.last() == c);
        if c == ' ' {
            let word = String::from_str(text.substring_char(start, i));
            let ghost before = text_views(words@);
            words.push(word);
            assert(text_views(words@) =~= before.push(text@.subrange(start as int, i as int)));
            start = i + 1;
            assert(text@.subrange(start as int, i + 1) =~= Seq::<char>::empty());
        } else {
            assert(text@.subrange(start as int, i + 1) =~= text@.subrange(
                start as int,
                i as int,
            ).push(c));
            assert(text_views(words@).push(text@.subrange(start as int, i + 1)) =~= split_spaces(
                seen,
            ).update(
                split_spaces(seen).len() - 1,
                split_spaces(seen).last().push(c),
            ));
        }
        i = i + 1;
    }
    let word = String::from_str(text.substring_char(start, n));
    let ghost before = text_views(words@);
    words.push(word);
    assert(text_views(words@) =~= before.push(text@.subrange(start as int, n as int)));
    assert(text@.subrange(0, n as int) =~= text@);
    words
}

/// Writes the words one after another with a single space between each two
/// neighbours.
pub fn join_words(words: &Vec<String>) -> (text: String)
    ensures
        text@ == join_spaces(text_views(words@)),
{
    let mut text = String::new();
    let mut i: usize = 0;
    assert(text_views(words@).take(0) =~= Seq::<Seq<char>>::empty());
    while i < words.len()
        invariant
            i <= words.len(),
            text@ == join_spaces(text_views(words@).take(i as int)),
        decreases words.len() - i,
    {
        let ghost before = text_views(words@).take(i as int);
        let ghost after = text_views(words@).take(i + 1);
        assert(after.drop_last() =~= before);
        assert(after.last() == words@[i as int]@);
        if i > 0 {
            proof {
                reveal_strlit(" ");
            }
            text.append(" ");
            assert(text@ =~= join_spaces(before).push(' '));
        } else {
            assert(text@ + words@[i as int]@ =~= words@[i as int]@);
        }
        text.append(words[i].as_str());
        i = i + 1;
    }
    assert(text_views(words@).take(words@.len() as int) =~= text_views(words@));
    text
}

} // verus!
