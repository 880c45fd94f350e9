use vstd::prelude::*;
use vstd::string::*;

verus! {

/// The pieces of `s` between the occurrences of `sep`, in order: a string with
/// `k` occurrences of `sep` has `k + 1` pieces, some of which may be empty.
/// This is what `str::split` with a `char` pattern yields.
pub open spec fn split_on(s: Seq<char>, sep: char) -> Seq<Seq<char>>
    decreases s.len(),
{
    if s.len() == 0 {
        seq![Seq::<char>::empty()]
    } else {
        let pieces = split_on(s.drop_last(), sep);
        if s.last() == sep {
            pieces.push(Seq::<char>::empty())
        } else {
            pieces.update(pieces.len() - 1, pieces.last().push(s.last()))
        }
    }
}

/// The views of a sequence of string slices.
pub open spec fn str_views(v: Seq<&str>) -> Seq<Seq<char>> {
    Seq::new(v.len(), |i: int| v[i]@)
}

/// The pieces joined together, with `sep` between each two neighbours.
pub open spec fn join_with(pieces: Seq<Seq<char>>, sep: Seq<char>) -> Seq<char>
    decreases pieces.len(),
{
    if pieces.len() == 0 {
        Seq::<char>::empty()
    } else if pieces.len() == 1 {
        pieces[0]
    } else {
        join_with(pieces.drop_last(), sep) + sep + pieces.last()
    }
}

/// Whether some element of `list` reads as `x`.
pub open spec fn contains_view(list: Seq<&str>, x: Seq<char>) -> bool {
    exists|i: int| 0 <= i < list.len() && #[trigger] list[i]@ == x
}

/// Splitting always yields at least one piece.
pub proof fn lemma_split_nonempty(s: Seq<char>, sep: char)
    ensures
        split_on(s, sep).len() >= 1,
    decreases s.len(),
{
    if s.len() > 0 {
        lemma_split_nonempty(s.drop_last(), sep);
    }
}

/// Appending text free of `sep` only lengthens the last piece.
pub proof fn lemma_split_append_plain(p: Seq<char>, t: Seq<char>, sep: char)
    requires
        !t.contains(sep),
    ensures
        split_on(p + t, sep).len() == split_on(p, sep).len(),
        split_on(p + t, sep) == split_on(p, sep).update(
            split_on(p, sep).len() - 1,
            split_on(p, sep).last() + t,
        ),
    decreases t.len(),
{
    lemma_split_nonempty(p, sep);
    if t.len() == 0 {
        assert(p + t =~= p);
        assert(split_on(p, sep).last() + t =~= split_on(p, sep).last());
        assert(split_on(p, sep).update(split_on(p, sep).len() - 1, split_on(p, sep).last())
            =~= split_on(p, sep));
    } else {
        let u = t.drop_last();
        assert(!u.contains(sep)) by {
            if u.contains(sep) {
                let k = choose|k: int| 0 <= k < u.len() && u[k] == sep;
                assert(t[k] == sep);
            }
        }
        lemma_split_append_plain(p, u, sep);
        assert((p + t).drop_last() =~= p + u);
        assert((p + t).last() == t.last());
        assert(t.last() != sep) by {
            assert(t[t.len() - 1] == t.last());
        }
        lemma_split_nonempty(p + u, sep);
        assert(split_on(p, sep).last() + u + seq![t.last()] =~= split_on(p, sep).last() + t);
        assert((split_on(p, sep).last() + u).push(t.last()) =~= split_on(p, sep).last() + t);
        assert(split_on(p + t, sep) =~= split_on(p, sep).update(
            split_on(p, sep).len() - 1,
            split_on(p, sep).last() + t,
        ));
    }
}

/// Appending `sep` starts a new, empty piece.
pub proof fn lemma_split_append_sep(p: Seq<char>, sep: char)
    ensures
        split_on(p.push(sep), sep) == split_on(p, sep).push(Seq::<char>::empty()),
{
    assert(p.push(sep).drop_last() =~= p);
}

/// Joining the pieces of a split with the separator gives back the text.
pub proof fn lemma_split_join(s: Seq<char>, sep: char)
    ensures
        join_with(split_on(s, sep), seq![sep]) == s,
    decreases s.len(),
{
    if s.len() == 0 {
        assert(split_on(s, sep) =~= seq![Seq::<char>::empty()]);
        assert(s =~= Seq::<char>::empty());
    } else {
        let p = s.drop_last();
        let q = split_on(p, sep);
        lemma_split_join(p, sep);
        lemma_split_nonempty(p, sep);
        if s.last() == sep {
            let r = q.push(Seq::<char>::empty());
            assert(r.drop_last() =~= q);
            assert(join_with(r, seq![sep]) == join_with(q, seq![sep]) + seq![sep] + Seq::<char>::empty());
            assert(p + seq![sep] + Seq::<char>::empty() =~= s);
        } else {
            let w = q.last().push(s.last());
            let r = q.update(q.len() - 1, w);
            if q.len() == 1 {
                assert(join_with(q, seq![sep]) == q[0]);
                assert(join_with(r, seq![sep]) == r[0]);
                assert(w =~= p.push(s.last()));
                assert(p.push(s.last()) =~= s);
            } else {
                assert(r.drop_last() =~= q.drop_last());
                assert(join_with(q, seq![sep]) == join_with(q.drop_last(), seq![sep]) + seq![sep]
                    + q.last());
                assert(join_with(r, seq![sep]) == join_with(q.drop_last(), seq![sep]) + seq![sep]
                    + w);
                assert(join_with(r, seq![sep]) =~= p.push(s.last()));
                assert(p.push(s.last()) =~= s);
            }
        }
    }
}

/// Law: membership is exact: `x` is in `list` when some entry reads exactly as
/// `x`, and not when the entries only share a prefix or a suffix with it.
pub proof fn lemma_contains_view_exact(list: Seq<&str>, x: Seq<char>)
    ensures
        contains_view(list, x) <==> exists|i: int| 0 <= i < list.len() && list[i]@ == x,
        forall|i: int| 0 <= i < list.len() && list[i]@.len() != x.len() ==> !(list[i]@ == x),
        list.len() == 0 ==> !contains_view(list, x),
{
}

/// Law: no piece of a split holds the separator, so that, together with
/// `lemma_split_join`, the pieces are exactly the maximal runs free of it.
pub proof fn lemma_split_pieces_plain(s: Seq<char>, sep: char)
    ensures
        forall|i: int| 0 <= i < split_on(s, sep).len() ==> !(#[trigger] split_on(s, sep)[i]).contains(sep),
    decreases s.len(),
{
    if s.len() > 0 {
        let p = s.drop_last();
        lemma_split_pieces_plain(p, sep);
        lemma_split_nonempty(p, sep);
        let q = split_on(p, sep);
        if s.last() != sep {
            let w = q.last().push(s.last());
            assert forall|i: int| 0 <= i < split_on(s, sep).len() implies !(#[trigger] split_on(
                s,
                sep,
            )[i]).contains(sep) by {
                if i == q.len() - 1 {
                    if w.contains(sep) {
                        let k = choose|k: int| 0 <= k < w.len() && w[k] == sep;
                        if k < q.last().len() {
                            assert(q.last()[k] == sep);
                            assert(q[q.len() - 1].contains(sep));
                        }
                    }
                } else {
                    assert(split_on(s, sep)[i] == q[i]);
                }
            }
        } else {
            assert forall|i: int| 0 <= i < split_on(s, sep).len() implies !(#[trigger] split_on(
                s,
                sep,
            )[i]).contains(sep) by {
                if i < q.len() {
                    assert(split_on(s, sep)[i] == q[i]);
                } else {
                    assert(split_on(s, sep)[i] =~= Seq::<char>::empty());
                }
            }
        }
    }
}

/// Law: a text free of the separator splits into itself alone.
pub proof fn lemma_split_plain(s: Seq<char>, sep: char)
    requires
        !s.contains(sep),
    ensures
        split_on(s, sep) == seq![s],
{
    let e = Seq::<char>::empty();
    lemma_split_append_plain(e, s, sep);
    assert(e + s =~= s);
    assert(split_on(e, sep) =~= seq![e]);
    assert(split_on(s, sep) =~= seq![s]);
}

/// Law: joining puts the separator between each two neighbours and nowhere
/// else: nothing joins to the empty text, one piece joins to itself, and one
/// more piece adds the separator and that piece at the end.
pub proof fn lemma_join_pieces(pieces: Seq<Seq<char>>, p: Seq<char>, sep: Seq<char>)
    ensures
        join_with(Seq::<Seq<char>>::empty(), sep) == Seq::<char>::empty(),
        join_with(seq![p], sep) == p,
        pieces.len() > 0 ==> join_with(pieces.push(p), sep) == join_with(pieces, sep) + sep + p,
{
    assert(pieces.push(p).drop_last() =~= pieces);
}

/// Whether two string slices hold the same characters.
pub fn str_eq(a: &str, b: &str) -> (res: bool)
    ensures
        res == (a@ == b@),
{
    let n = a.unicode_len();
    if n != b.unicode_len() {
        return false;
    }
    let mut i: usize = 0;
    while i < n
        invariant
            n == a@.len(),
            n == b@.len(),
            i <= n,
            forall|j: int| 0 <= j < i ==> a@[j] == b@[j],
        decreases n - i,
    {
        if a.get_char(i) != b.get_char(i) {
            return false;
        }
        i = i + 1;
    }
    assert(a@ =~= b@);
    true
}

/// Splits `s` at each occurrence of `sep`.
pub fn split_by<'a>(s: &'a str, sep: char) -> (pieces: Vec<&'a str>)
    ensures
        str_views(pieces@) == split_on(s@, sep),
{
    let n = s.unicode_len();
    let mut pieces: Vec<&'a str> = Vec::new();
    let mut start: usize = 0;
    let mut i: usize = 0;
    assert(s@.take(0) =~= Seq::<char>::empty());
    assert(str_views(pieces@).push(s@.subrange(0, 0)) =~= split_on(s@.take(0), sep));
    while i < n
        invariant
            n == s@.len(),
            start <= i <= n,
            str_views(pieces@).push(s@.subrange(start as int, i as int)) == split_on(
                s@.take(i as int),
                sep,
            ),
        decreases n - i,
    {
        let c = s.get_char(i);
        let ghost before = str_views(pieces@);
        assert(s@.take(i + 1).drop_last() =~= s@.take(i as int));
        assert(s@.take(i + 1).last() == c);
        if c == sep {
            let piece = s.substring_char(start, i);
            pieces.push(piece);
            assert(str_views(pieces@) =~= before.push(piece@));
            assert(split_on(s@.take(i + 1), sep) == split_on(s@.take(i as int), sep).push(
                Seq::<char>::empty(),
            ));
            assert(s@.subrange(i + 1, i + 1) =~= Seq::<char>::empty());
            assert(str_views(pieces@).push(s@.subrange(i + 1, i + 1)) =~= split_on(
                s@.take(i + 1),
                sep,
            ));
            start = i + 1;
        } else {
            assert(s@.subrange(start as int, i + 1) =~= s@.subrange(start as int, i as int).push(
                c,
            ));
            assert(str_views(pieces@).push(s@.subrange(start as int, i + 1)) =~= split_on(
                s@.take(i + 1),
                sep,
            ));
        }
        i = i + 1;
    }
    let last = s.substring_char(start, n);
    let ghost before = str_views(pieces@);
    pieces.push(last);
    assert(s@.take(n as int) =~= s@);
    assert(str_views(pieces@) =~= before.push(last@));
    pieces
}

/// Whether some element of `list` holds the same characters as `x`.
pub fn contains_str(list: &[&str], x: &str) -> (res: bool)
    ensures
        res == contains_view(list@, x@),
        res <==> exists|i: int| 0 <= i < list@.len() && list@[i]@ == x@,
{
    let mut i: usize = 0;
    while i < list.len()
        invariant
            i <= list@.len(),
            forall|j: int| 0 <= j < i ==> list@[j]@ != x@,
        decreases list@.len() - i,
    {
        if str_eq(list[i], x) {
            return true;
        }
        i = i + 1;
    }
    false
}

/// The elements of `list` joined together, with `sep` between each two neighbours.
pub fn join_strs(list: &[&str], sep: &str) -> (res: String)
    ensures
        res@ == join_with(str_views(list@), sep@),
{
    let mut res = String::new();
    let mut i: usize = 0;
    while i < list.len()
        invariant
            i <= list@.len(),
            res@ == join_with(str_views(list@).take(i as int), sep@),
        decreases list@.len() - i,
    {
        let ghost prefix = str_views(list@).take(i + 1);
        assert(prefix.drop_last() =~= str_views(list@).take(i as int));
        if i == 0 {
            res.append(list[i]);
            assert(prefix.len() == 1);
            assert(res@ =~= join_with(prefix, sep@));
        } else {
            res.append(sep);
            res.append(list[i]);
            assert(res@ =~= join_with(prefix, sep@));
        }
        i = i + 1;
    }
    assert(str_views(list@).take(list@.len() as int) =~= str_views(list@));
    res
}

} // verus!
