//! Text primitives shared by the line protocols: splitting on a separator
//! character, joining with a separator, comparing and unescaping.
use vstd::prelude::*;

use crate::keys::{first_index, lemma_first_index};

verus! {

/// The pieces of `s` between occurrences of `sep`, in order, empty pieces
/// included: there is always one more piece than there are separators.
pub open spec fn pieces(s: Seq<char>, sep: char) -> Seq<Seq<char>>
    decreases s.len(),
{
    if s.len() == 0 {
        seq![Seq::<char>::empty()]
    } else {
        let p = pieces(s.drop_last(), sep);
        if s.last() == sep {
            p.push(Seq::<char>::empty())
        } else {
            p.update(p.len() - 1, p.last().push(s.last()))
        }
    }
}

/// The words of `ws` with `sep` between each two neighbours.
pub open spec fn joined(ws: Seq<Seq<char>>, sep: Seq<char>) -> Seq<char>
    decreases ws.len(),
{
    if ws.len() == 0 {
        Seq::<char>::empty()
    } else if ws.len() == 1 {
        ws[0]
    } else {
        joined(ws.drop_last(), sep) + sep + ws.last()
    }
}

/// `s` with every `\` followed by `n` (read left to right, without overlap)
/// turned into a newline character.
pub open spec fn unescape_newlines(s: Seq<char>) -> Seq<char>
    decreases s.len(),
{
    if s.len() == 0 {
        Seq::<char>::empty()
    } else if s.len() >= 2 && s[0] == '\\' && s[1] == 'n' {
        seq!['\n'] + unescape_newlines(s.skip(2))
    } else {
        seq![s[0]] + unescape_newlines(s.drop_first())
    }
}

/// Whether `c` occurs in `s`.
pub open spec fn has_char(s: Seq<char>, c: char) -> bool {
    exists|i: int| 0 <= i < s.len() && s[i] == c
}

pub proof fn lemma_pieces_nonempty(s: Seq<char>, sep: char)
    ensures
        pieces(s, sep).len() >= 1,
    decreases s.len(),
{
    if s.len() > 0 {
        lemma_pieces_nonempty(s.drop_last(), sep);
    }
}

/// Law: joining the pieces of a text with the separator they were split on
/// gives the text back.
pub proof fn law_join_pieces(s: Seq<char>, sep: char)
    ensures
        joined(pieces(s, sep), seq![sep]) == s,
    decreases s.len(),
{
    if s.len() > 0 {
        let t = s.drop_last();
        law_join_pieces(t, sep);
        lemma_pieces_nonempty(t, sep);
        let p = pieces(t, sep);
        if s.last() == sep {
            let q = p.push(Seq::<char>::empty());
            assert(q.drop_last() =~= p);
            assert(joined(q, seq![sep]) =~= joined(p, seq![sep]) + seq![sep]);
            assert(s =~= t + seq![sep]);
        } else {
            let q = p.update(p.len() - 1, p.last().push(s.last()));
            if p.len() == 1 {
                assert(joined(p, seq![sep]) == p[0]);
                assert(s =~= t.push(s.last()));
            } else {
                assert(q.drop_last() =~= p.drop_last());
                assert(joined(p, seq![sep]) == joined(p.drop_last(), seq![sep]) + seq![sep]
                    + p.last());
                assert(joined(q, seq![sep]) =~= joined(p, seq![sep]).push(s.last()));
                assert(s =~= t.push(s.last()));
            }
        }
    }
}

pub proof fn lemma_pieces_without_sep(s: Seq<char>, sep: char)
    requires
        !has_char(s, sep),
    ensures
        pieces(s, sep) =~= seq![s],
    decreases s.len(),
{
    if s.len() > 0 {
        let t = s.drop_last();
        assert(!has_char(t, sep)) by {
            if has_char(t, sep) {
                let i = choose|i: int| 0 <= i < t.len() && t[i] == sep;
                assert(s[i] == sep);
            }
        }
        lemma_pieces_without_sep(t, sep);
        assert(s[s.len() - 1] != sep);
        assert(s =~= t.push(s.last()));
    } else {
        assert(s =~= Seq::<char>::empty());
    }
}

/// When `i` is the first position of `sep` in `s`, the first piece is what
/// comes before it and the other pieces are those of what comes after it.
pub proof fn lemma_pieces_at_first_sep(s: Seq<char>, sep: char, i: int)
    requires
        0 <= i < s.len(),
        s[i] == sep,
        forall|j: int| 0 <= j < i ==> s[j] != sep,
    ensures
        pieces(s, sep) =~= seq![s.take(i)] + pieces(s.skip(i + 1), sep),
    decreases s.len(),
{
    let t = s.drop_last();
    if s.len() == i + 1 {
        assert(!has_char(t, sep)) by {
            if has_char(t, sep) {
                let k = choose|k: int| 0 <= k < t.len() && t[k] == sep;
                assert(s[k] == sep);
            }
        }
        lemma_pieces_without_sep(t, sep);
        assert(t =~= s.take(i));
        assert(s.skip(i + 1) =~= Seq::<char>::empty());
    } else {
        lemma_pieces_at_first_sep(t, sep, i);
        lemma_pieces_nonempty(t.skip(i + 1), sep);
        let u = s.skip(i + 1);
        assert(u.drop_last() =~= t.skip(i + 1));
        assert(u.last() == s.last());
        assert(t.take(i) =~= s.take(i));
    }
}

/// Law: the pieces after the first one, joined again with the separator,
/// are exactly the text after the first separator (nothing when there is none).
pub proof fn law_rest_after_first_piece(s: Seq<char>, sep: char)
    ensures
        has_char(s, sep) ==> exists|i: int|
            0 <= i < s.len() && s[i] == sep && (forall|j: int| 0 <= j < i ==> s[j] != sep)
                && joined(pieces(s, sep).drop_first(), seq![sep]) == s.skip(i + 1) && pieces(
                s,
                sep,
            )[0] == s.take(i),
        !has_char(s, sep) ==> pieces(s, sep) == seq![s],
{
    if has_char(s, sep) {
        lemma_first_index(s, sep);
        let i = first_index(s, sep);
        lemma_pieces_at_first_sep(s, sep, i);
        law_join_pieces(s.skip(i + 1), sep);
        assert(pieces(s, sep).drop_first() =~= pieces(s.skip(i + 1), sep));
    } else {
        lemma_pieces_without_sep(s, sep);
    }
}

/// A copy of `s`.
pub fn text_of(s: &str) -> (r: String)
    ensures
        r@ == s@,
{
    let mut r = String::new();
    r.append(s);
    r
}

/// Whether two texts are equal, character for character.
pub fn same_text(a: &str, b: &str) -> (r: bool)
    ensures
        r == (a@ == b@),
{
    let n = a.unicode_len();
    let m = b.unicode_len();
    if n != m {
        return false;
    }
    let mut i: usize = 0;
    while i < n
        invariant
            n == a@.len(),
            m == b@.len(),
            n == m,
            i <= n,
            forall|j: int| 0 <= j < i ==> a@[j] == b@[j],
        decreases n - i,
    {
        if a.get_char(i) != b.get_char(i) {
            return false;
        }
        i = i + 1;
    }
    assert(a@ =~= b@);
    true
}

/// Whether `c` occurs in `s`.
pub fn contains_char(s: &str, c: char) -> (r: bool)
    ensures
        r == has_char(s@, c),
{
    let n = s.unicode_len();
    let mut i: usize = 0;
    while i < n
        invariant
            n == s@.len(),
            i <= n,
            forall|j: int| 0 <= j < i ==> s@[j] != c,
        decreases n - i,
    {
        if s.get_char(i) == c {
            return true;
        }
        i = i + 1;
    }
    false
}

/// The pieces of `s` between occurrences of `sep`.
pub fn split_text(s: &str, sep: char) -> (words: Vec<String>)
    ensures
        words.deep_view() == pieces(s@, sep),
{
    let n = s.unicode_len();
    let mut words: Vec<String> = Vec::new();
    let mut start: usize = 0;
    let mut i: usize = 0;
    proof {
        assert(s@.take(0) =~= Seq::<char>::empty());
        assert(s@.subrange(0, 0) =~= Seq::<char>::empty());
        assert(words.deep_view() =~= Seq::<Seq<char>>::empty());
    }
    while i < n
        invariant
            n == s@.len(),
            start <= i <= n,
            words.deep_view().push(s@.subrange(start as int, i as int)) =~= pieces(
                s@.take(i as int),
                sep,
            ),
        decreases n - i,
    {
        let c = s.get_char(i);
        let ghost before = words.deep_view();
        proof {
            let t = s@.take(i + 1);
            assert(t.drop_last() =~= s@.take(i as int));
            assert(t.last() == c);
        }
        if c == sep {
            let w = text_of(s.substring_char(start, i));
            words.push(w);
            proof {
                assert(words.deep_view() =~= before.push(s@.subrange(start as int, i as int)));
                assert(s@.subrange(i + 1, i + 1) =~= Seq::<char>::empty());
            }
            start = i + 1;
        } else {
            proof {
                assert(s@.subrange(start as int, i + 1) =~= s@.subrange(start as int, i as int).push(c));
            }
        }
        i = i + 1;
    }
    let w = text_of(s.substring_char(start, n));
    words.push(w);
    proof {
        assert(s@.take(n as int) =~= s@);
    }
    words
}

/// The words of `ws` from position `from` on, with `sep` between each two.
pub fn join_texts(ws: &Vec<String>, from: usize, sep: &str) -> (r: String)
    requires
        from <= ws.len(),
    ensures
        r@ == joined(ws.deep_view().skip(from as int), sep@),
{
    let mut r = String::new();
    let mut i: usize = from;
    let n = ws.len();
    while i < n
        invariant
            n == ws.len(),
            from <= i <= n,
            r@ == joined(ws.deep_view().subrange(from as int, i as int), sep@),
        decreases n - i,
    {
        let ghost sub = ws.deep_view().subrange(from as int, i + 1);
        assert(sub.drop_last() =~= ws.deep_view().subrange(from as int, i as int));
        if i > from {
            r.append(sep);
        }
        r.append(ws[i].as_str());
        i = i + 1;
    }
    assert(ws.deep_view().subrange(from as int, n as int) =~= ws.deep_view().skip(from as int));
    r
}

/// `s` with each `\n` escape (a backslash followed by `n`) turned into a
/// newline character.
pub fn unescape_newlines_text(s: &str) -> (r: String)
    ensures
        r@ == unescape_newlines(s@),
{
    let n = s.unicode_len();
    let mut r = String::new();
    let mut start: usize = 0;
    let mut i: usize = 0;
    let newline = "\n";
    proof {
        reveal_strlit("\n");
        assert(s@.skip(0) =~= s@);
        assert(r@ + s@.subrange(0, 0) =~= Seq::<char>::empty());
    }
    while i < n
        invariant
            n == s@.len(),
            start <= i <= n,
            newline@ == seq!['\n'],
            unescape_newlines(s@) == r@ + s@.subrange(start as int, i as int) + unescape_newlines(
                s@.skip(i as int),
            ),
        decreases n - i,
    {
        let ghost rest = s@.skip(i as int);
        if i + 1 < n && s.get_char(i) == '\\' && s.get_char(i + 1) == 'n' {
            r.append(s.substring_char(start, i));
            r.append(newline);
            proof {
                assert(rest.skip(2) =~= s@.skip(i + 2));
                assert(s@.subrange(i as int, i as int) =~= Seq::<char>::empty());
            }
            i = i + 2;
            start = i;
            proof {
                assert(s@.subrange(start as int, i as int) =~= Seq::<char>::empty());
            }
        } else {
            proof {
                assert(rest.drop_first() =~= s@.skip(i + 1));
                assert(s@.subrange(start as int, i + 1) =~= s@.subrange(start as int, i as int)
                    + seq![s@[i as int]]);
            }
            i = i + 1;
        }
    }
    r.append(s.substring_char(start, n));
    proof {
        assert(s@.skip(n as int) =~= Seq::<char>::empty());
        assert(s@.subrange(start as int, n as int) + Seq::<char>::empty() =~= s@.subrange(
            start as int,
            n as int,
        ));
    }
    r
}

} // verus!
