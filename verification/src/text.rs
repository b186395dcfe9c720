//! Small string operations the collector relies on, each with its meaning
//! stated over sequences of characters.

use vstd::prelude::*;
use vstd::string::*;

verus! {

/// `s` without the run of `c` it starts with.
pub open spec fn trim_leading(s: Seq<char>, c: char) -> Seq<char>
    decreases s.len(),
{
    if s.len() > 0 && s[0] == c {
        trim_leading(s.skip(1), c)
    } else {
        s
    }
}

/// The pieces of `s` between occurrences of `sep`.
///
/// There is always at least one piece: the empty text has the single empty
/// piece, and a trailing separator is followed by an empty piece.
pub open spec fn split_on(s: Seq<char>, sep: char) -> Seq<Seq<char>>
    decreases s.len(),
{
    if s.len() == 0 {
        seq![Seq::<char>::empty()]
    } else {
        let before = split_on(s.drop_last(), sep);
        if s.last() == sep {
            before.push(Seq::<char>::empty())
        } else {
            before.drop_last().push(before.last().push(s.last()))
        }
    }
}

/// The pieces with `sep` between each two of them.
pub open spec fn join_with(pieces: Seq<Seq<char>>, sep: char) -> Seq<char>
    decreases pieces.len(),
{
    if pieces.len() == 0 {
        Seq::<char>::empty()
    } else if pieces.len() == 1 {
        pieces[0]
    } else {
        join_with(pieces.drop_last(), sep) + seq![sep] + pieces.last()
    }
}

/// The views of a list of strings, in order.
pub open spec fn texts(list: Seq<String>) -> Seq<Seq<char>> {
    Seq::new(list.len(), |i: int| list[i]@)
}

/// `split_on` never yields an empty list.
pub proof fn lemma_split_on_nonempty(s: Seq<char>, sep: char)
    ensures
        split_on(s, sep).len() >= 1,
    decreases s.len(),
{
    if s.len() > 0 {
        lemma_split_on_nonempty(s.drop_last(), sep);
    }
}

/// Splitting loses nothing and cuts at every separator: no piece holds
/// `sep`, and the pieces joined by `sep` are `s` again.
pub proof fn lemma_split_on_cuts_at_every_separator(s: Seq<char>, sep: char)
    ensures
        forall|i: int|
            0 <= i < split_on(s, sep).len() ==> !(#[trigger] split_on(s, sep)[i]).contains(sep),
        join_with(split_on(s, sep), sep) == s,
    decreases s.len(),
{
    let pieces = split_on(s, sep);
    if s.len() == 0 {
        assert(join_with(pieces, sep) =~= s);
    } else {
        let before = split_on(s.drop_last(), sep);
        lemma_split_on_cuts_at_every_separator(s.drop_last(), sep);
        lemma_split_on_nonempty(s.drop_last(), sep);
        assert(s =~= s.drop_last().push(s.last()));
        if s.last() == sep {
            assert(pieces.drop_last() =~= before);
            assert(join_with(pieces, sep) =~= s);
            assert forall|i: int| 0 <= i < pieces.len() implies !(#[trigger] pieces[i]).contains(
                sep,
            ) by {
                if i < before.len() {
                    assert(pieces[i] == before[i]);
                }
            }
        } else {
            let grown = before.last().push(s.last());
            assert(pieces.drop_last() =~= before.drop_last());
            if before.len() == 1 {
                assert(join_with(pieces, sep) =~= s);
            } else {
                assert(join_with(pieces, sep) =~= (join_with(before.drop_last(), sep) + seq![sep]
                    + before.last()).push(s.last()));
                assert(join_with(pieces, sep) =~= s);
            }
            assert forall|i: int| 0 <= i < pieces.len() implies !(#[trigger] pieces[i]).contains(
                sep,
            ) by {
                if i < before.len() - 1 {
                    assert(pieces[i] == before[i]);
                } else {
                    assert(!before[before.len() - 1].contains(sep));
                    if grown.contains(sep) {
                        let k = choose|k: int| 0 <= k < grown.len() && grown[k] == sep;
                        if k < before.last().len() {
                            assert(before.last()[k] == sep);
                        }
                    }
                }
            }
        }
    }
}

/// What `trim_leading` gives is the rest of `s` after its leading run of
/// `c`: a suffix of `s` that does not start with `c`, cut off from nothing
/// but `c`.
pub proof fn lemma_trim_leading_is_the_rest(s: Seq<char>, c: char) -> (run: int)
    ensures
        0 <= run <= s.len(),
        trim_leading(s, c) == s.skip(run),
        forall|i: int| 0 <= i < run ==> s[i] == c,
        run < s.len() ==> s[run] != c,
    decreases s.len(),
{
    if s.len() > 0 && s[0] == c {
        let rest = lemma_trim_leading_is_the_rest(s.skip(1), c);
        assert(s.skip(1).skip(rest) =~= s.skip(rest + 1));
        assert forall|i: int| 0 <= i < rest + 1 implies s[i] == c by {
            if i > 0 {
                assert(s.skip(1)[i - 1] == c);
            }
        }
        if rest + 1 < s.len() {
            assert(s.skip(1)[rest] != c);
        }
        rest + 1
    } else {
        assert(s.skip(0) =~= s);
        0
    }
}

/// Removes every leading `/` from `s`.
pub fn strip_leading_slashes(s: &str) -> (out: &str)
    ensures
        out@ == trim_leading(s@, '/'),
{
    let n: usize = s.unicode_len();
    let mut i: usize = 0;
    proof {
        assert(s@.skip(0) =~= s@);
    }
    while i < n && s.get_char(i) == '/'
        invariant
            i <= n,
            n == s@.len(),
            trim_leading(s@, '/') == trim_leading(s@.skip(i as int), '/'),
        decreases n - i,
    {
        proof {
            assert(s@.skip(i as int).skip(1) =~= s@.skip(i as int + 1));
        }
        i = i + 1;
    }
    proof {
        assert(s@.subrange(i as int, n as int) =~= s@.skip(i as int));
    }
    s.substring_char(i, n)
}

/// Splits `s` at every comma. There is always at least one piece.
pub fn split_commas(s: &str) -> (parts: Vec<String>)
    ensures
        texts(parts@) == split_on(s@, ','),
        parts@.len() >= 1,
{
    let n: usize = s.unicode_len();
    let mut parts: Vec<String> = Vec::new();
    let mut start: usize = 0;
    let mut i: usize = 0;
    proof {
        assert(s@.subrange(0, 0) =~= Seq::<char>::empty());
        assert(texts(parts@).push(s@.subrange(0, 0)) =~= seq![Seq::<char>::empty()]);
    }
    while i < n
        invariant
            start <= i <= n,
            n == s@.len(),
            split_on(s@.subrange(0, i as int), ',') == texts(parts@).push(
                s@.subrange(start as int, i as int),
            ),
        decreases n - i,
    {
        let ghost head = s@.subrange(0, i as int + 1);
        let ghost done = texts(parts@);
        proof {
            assert(head.drop_last() =~= s@.subrange(0, i as int));
            assert(head.last() == s@[i as int]);
        }
        if s.get_char(i) == ',' {
            let ghost piece = s@.subrange(start as int, i as int);
            parts.push(String::from_str(s.substring_char(start, i)));
            start = i + 1;
            proof {
                assert(texts(parts@) =~= done.push(piece));
                assert(s@.subrange(start as int, i as int + 1) =~= Seq::<char>::empty());
            }
        } else {
            proof {
                let piece = s@.subrange(start as int, i as int);
                assert(done.push(piece).drop_last() =~= done);
                assert(piece.push(s@[i as int]) =~= s@.subrange(start as int, i as int + 1));
            }
        }
        i = i + 1;
    }
    let ghost done = texts(parts@);
    parts.push(String::from_str(s.substring_char(start, n)));
    proof {
        assert(s@.subrange(0, n as int) =~= s@);
        assert(texts(parts@) =~= done.push(s@.subrange(start as int, n as int)));
        lemma_split_on_nonempty(s@, ',');
    }
    parts
}

} // verus!

verus! {

/// Whether two strings hold the same characters.
pub fn same_text(a: &str, b: &str) -> (same: bool)
    ensures
        same == (a@ == b@),
{
    let n: usize = a.unicode_len();
    if n != b.unicode_len() {
        return false;
    }
    let mut i: usize = 0;
    while i < n
        invariant
            i <= n,
            n == a@.len(),
            n == b@.len(),
            forall|j: int| 0 <= j < i ==> a@[j] == b@[j],
        decreases n - i,
    {
        if a.get_char(i) != b.get_char(i) {
            return false;
        }
        i = i + 1;
    }
    proof {
        assert(a@ =~= b@);
    }
    true
}

} // verus!
