use vstd::prelude::*;

verus! {

/// The views of a sequence of strings.
pub open spec fn views(v: Seq<String>) -> Seq<Seq<char>> {
    v.map_values(|x: String| x@)
}

/// The pieces of `s` between occurrences of `d`, in order: `k` delimiters
/// give `k + 1` pieces, some of them possibly empty.
pub open spec fn split_spec(s: Seq<char>, d: char) -> Seq<Seq<char>>
    decreases s.len(),
{
    if s.len() == 0 {
        seq![Seq::<char>::empty()]
    } else {
        let p = split_spec(s.drop_last(), d);
        if s.last() == d {
            p.push(Seq::<char>::empty())
        } else {
            p.update(p.len() - 1, p.last().push(s.last()))
        }
    }
}

/// A line without the carriage return that may end it.
pub open spec fn strip_cr(l: Seq<char>) -> Seq<char> {
    if l.len() > 0 && l.last() == '\r' {
        l.drop_last()
    } else {
        l
    }
}

/// The lines of `s`: the pieces between newlines, each that a newline ends
/// without its carriage return.
pub open spec fn line_texts(s: Seq<char>) -> Seq<Seq<char>> {
    let p = split_spec(s, '\n');
    Seq::new(p.len(), |k: int| if k + 1 < p.len() { strip_cr(p[k]) } else { p[k] })
}

/// The entries of `ls` that are not empty, in order.
pub open spec fn non_empty(ls: Seq<Seq<char>>) -> Seq<Seq<char>> {
    ls.filter(|l: Seq<char>| l.len() > 0)
}

/// The non-empty lines of `s`, in order.
pub open spec fn record_lines(s: Seq<char>) -> Seq<Seq<char>> {
    non_empty(line_texts(s))
}

pub proof fn lemma_split_non_empty(s: Seq<char>, d: char)
    ensures
        split_spec(s, d).len() >= 1,
    decreases s.len(),
{
    if s.len() > 0 {
        lemma_split_non_empty(s.drop_last(), d);
    }
}

/// Text without the delimiter is one piece.
pub proof fn lemma_split_plain(s: Seq<char>, d: char)
    requires
        forall|i: int| 0 <= i < s.len() ==> s[i] != d,
    ensures
        split_spec(s, d) == seq![s],
    decreases s.len(),
{
    if s.len() > 0 {
        lemma_split_plain(s.drop_last(), d);
        assert(s.drop_last().push(s.last()) =~= s);
        assert(seq![s.drop_last()].update(0, s.drop_last().push(s.last())) =~= seq![s]);
    } else {
        assert(s =~= Seq::<char>::empty());
    }
}

/// Text joined at a delimiter splits into the pieces of each side.
pub proof fn lemma_split_join(x: Seq<char>, b: Seq<char>, d: char)
    ensures
        split_spec(x.push(d) + b, d) == split_spec(x, d) + split_spec(b, d),
    decreases b.len(),
{
    let y = x.push(d) + b;
    if b.len() == 0 {
        assert(y =~= x.push(d));
        assert(x.push(d).drop_last() =~= x);
        assert(split_spec(x, d).push(Seq::<char>::empty()) =~= split_spec(x, d) + seq![Seq::<char>::empty()]);
    } else {
        lemma_split_join(x, b.drop_last(), d);
        lemma_split_non_empty(b.drop_last(), d);
        assert(y.drop_last() =~= x.push(d) + b.drop_last());
        assert(y.last() == b.last());
        let p = split_spec(x, d);
        let q = split_spec(b.drop_last(), d);
        if b.last() == d {
            assert((p + q).push(Seq::<char>::empty()) =~= p + q.push(Seq::<char>::empty()));
        } else {
            let pq = p + q;
            assert(pq.update(pq.len() - 1, pq.last().push(b.last())) =~= p + q.update(
                q.len() - 1,
                q.last().push(b.last()),
            ));
        }
    }
}

/// Splits `s` at every occurrence of `d`.
pub fn split_on(s: &str, d: char) -> (r: Vec<String>)
    ensures
        views(r@) == split_spec(s@, d),
{
    let n = s.unicode_len();
    let mut out: Vec<String> = Vec::new();
    let mut start: usize = 0;
    let mut i: usize = 0;
    proof {
        assert(views(out@) =~= Seq::<Seq<char>>::empty());
        assert(s@.subrange(0, 0) =~= Seq::<char>::empty());
        assert(views(out@).push(s@.subrange(0, 0)) =~= seq![Seq::<char>::empty()]);
    }
    while i < n
        invariant
            n == s@.len(),
            start <= i <= n,
            views(out@).push(s@.subrange(start as int, i as int)) == split_spec(
                s@.subrange(0, i as int),
                d,
            ),
        decreases n - i,
    {
        let c = s.get_char(i);
        let ghost t = s@.subrange(0, i + 1);
        let ghost before = views(out@);
        proof {
            assert(t.drop_last() =~= s@.subrange(0, i as int));
            assert(t.last() == c);
        }
        if c == d {
            let piece = String::from_str(s.substring_char(start, i));
            out.push(piece);
            proof {
                assert(views(out@) =~= before.push(piece@));
                assert(s@.subrange(i + 1, i + 1) =~= Seq::<char>::empty());
            }
            start = i + 1;
        } else {
            proof {
                assert(s@.subrange(start as int, i + 1) =~= s@.subrange(start as int, i as int).push(c));
                let p = before.push(s@.subrange(start as int, i as int));
                assert(p.update(p.len() - 1, p.last().push(c)) =~= before.push(s@.subrange(start as int, i + 1)));
            }
        }
        i += 1;
    }
    let ghost before = views(out@);
    let last = String::from_str(s.substring_char(start, n));
    out.push(last);
    proof {
        assert(s@.subrange(0, n as int) =~= s@);
        assert(views(out@) =~= before.push(last@));
    }
    out
}

/// `l` without one carriage return at its end.
pub fn without_cr(l: &str) -> (r: String)
    ensures
        r@ == strip_cr(l@),
{
    let n = l.unicode_len();
    if n > 0 && l.get_char(n - 1) == '\r' {
        proof {
            assert(l@.subrange(0, n - 1) =~= l@.drop_last());
        }
        String::from_str(l.substring_char(0, n - 1))
    } else {
        String::from_str(l)
    }
}

/// The non-empty lines of `s`.
pub fn non_empty_lines(s: &str) -> (r: Vec<String>)
    ensures
        views(r@) == record_lines(s@),
{
    let pieces = split_on(s, '\n');
    let ghost texts = line_texts(s@);
    let mut out: Vec<String> = Vec::new();
    let mut k: usize = 0;
    proof {
        reveal(Seq::filter);
        assert(texts.take(0) =~= Seq::<Seq<char>>::empty());
        assert(views(out@) =~= Seq::<Seq<char>>::empty());
    }
    while k < pieces.len()
        invariant
            k <= pieces.len(),
            views(pieces@) == split_spec(s@, '\n'),
            texts == line_texts(s@),
            views(out@) == non_empty(texts.take(k as int)),
        decreases pieces.len() - k,
    {
        let line: String = if k + 1 < pieces.len() {
            without_cr(pieces[k].as_str())
        } else {
            pieces[k].clone()
        };
        proof {
            assert(line@ == texts[k as int]);
            reveal(Seq::filter);
            let t = texts.take(k + 1);
            assert(texts.len() == pieces@.len());
            assert(t.len() == k + 1);
            assert(t.drop_last() =~= texts.take(k as int));
            assert(t.last() == line@);
            assert(non_empty(t) == if line@.len() > 0 {
                non_empty(texts.take(k as int)).push(line@)
            } else {
                non_empty(texts.take(k as int))
            });
        }
        let ghost before = views(out@);
        if !line.as_str().is_empty() {
            out.push(line);
            proof {
                assert(views(out@) =~= before.push(line@));
            }
        }
        k += 1;
    }
    proof {
        assert(texts.take(k as int) =~= texts);
    }
    out
}

} // verus!
