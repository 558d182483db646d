use vstd::prelude::*;

verus! {

/// One element of the generated output.
#[derive(Clone, Debug, PartialEq, Eq)]
pub enum Piece {
    /// Fixed syntax written by the assembler itself.
    Code(String),
    /// Text taken from the input description (a name, a type, an import, a statement).
    Frag(String),
    /// A doc attribute carrying the string.
    Doc(String),
    /// A commentary marker: rendered downstream as a `//` comment.
    Comment(String),
    /// A blank-line marker.
    Blank,
}

/// The mathematical value of a [`Piece`].
pub enum Chunk {
    Code(Seq<char>),
    Frag(Seq<char>),
    Doc(Seq<char>),
    Comment(Seq<char>),
    Blank,
}

impl View for Piece {
    type V = Chunk;

    open spec fn view(&self) -> Chunk {
        match self {
            Piece::Code(s) => Chunk::Code(s@),
            Piece::Frag(s) => Chunk::Frag(s@),
            Piece::Doc(s) => Chunk::Doc(s@),
            Piece::Comment(s) => Chunk::Comment(s@),
            Piece::Blank => Chunk::Blank,
        }
    }
}

/// The chunks of a sequence of pieces.
pub open spec fn chunks(v: Seq<Piece>) -> Seq<Chunk> {
    v.map_values(|p: Piece| p@)
}

/// The chunks of `f(x)` for each `x` of `s`, one after the other.
pub open spec fn concat_map<A>(s: Seq<A>, f: spec_fn(A) -> Seq<Chunk>) -> Seq<Chunk>
    decreases s.len(),
{
    if s.len() == 0 {
        Seq::empty()
    } else {
        concat_map(s.drop_last(), f) + f(s.last())
    }
}

pub proof fn lemma_concat_map_step<A>(s: Seq<A>, i: int, f: spec_fn(A) -> Seq<Chunk>)
    requires
        0 <= i < s.len(),
    ensures
        concat_map(s.subrange(0, i + 1), f) == concat_map(s.subrange(0, i), f) + f(s[i]),
{
    assert(s.subrange(0, i + 1).drop_last() =~= s.subrange(0, i));
}

pub proof fn lemma_concat_map_all<A>(s: Seq<A>, f: spec_fn(A) -> Seq<Chunk>)
    ensures
        concat_map(s.subrange(0, s.len() as int), f) == concat_map(s, f),
{
    assert(s.subrange(0, s.len() as int) =~= s);
}

/// `c` occurs nowhere in `cs`.
pub open spec fn avoids(cs: Seq<Chunk>, c: Chunk) -> bool {
    forall|i: int| 0 <= i < cs.len() ==> cs[i] != c
}

pub broadcast proof fn lemma_avoids_concat(a: Seq<Chunk>, b: Seq<Chunk>, c: Chunk)
    requires
        avoids(a, c),
        avoids(b, c),
    ensures
        #[trigger] avoids(a + b, c),
{
    assert forall|i: int| 0 <= i < (a + b).len() implies (a + b)[i] != c by {
        if i < a.len() {
            assert((a + b)[i] == a[i]);
        } else {
            assert((a + b)[i] == b[i - a.len()]);
        }
    }
}

/// A chunk that occurs in none of the `f(x)` occurs nowhere in their concatenation.
pub proof fn lemma_concat_map_avoids<A>(s: Seq<A>, f: spec_fn(A) -> Seq<Chunk>, c: Chunk)
    requires
        forall|i: int| 0 <= i < s.len() ==> avoids(#[trigger] f(s[i]), c),
    ensures
        avoids(concat_map(s, f), c),
    decreases s.len(),
{
    if s.len() > 0 {
        let t = s.drop_last();
        assert forall|i: int| 0 <= i < t.len() implies avoids(#[trigger] f(t[i]), c) by {
            assert(t[i] == s[i]);
        }
        lemma_concat_map_avoids(t, f, c);
        assert(avoids(f(s[s.len() - 1]), c));
        lemma_avoids_concat(concat_map(t, f), f(s.last()), c);
    }
}

/// `concat_map` of a concatenation is the concatenation of the two.
pub proof fn lemma_concat_map_append<A>(a: Seq<A>, b: Seq<A>, f: spec_fn(A) -> Seq<Chunk>)
    ensures
        concat_map(a + b, f) == concat_map(a, f) + concat_map(b, f),
    decreases b.len(),
{
    if b.len() == 0 {
        assert(a + b =~= a);
        assert(concat_map(a, f) + concat_map(b, f) =~= concat_map(a, f));
    } else {
        assert((a + b).drop_last() =~= a + b.drop_last());
        lemma_concat_map_append(a, b.drop_last(), f);
        assert(concat_map(a, f) + concat_map(b, f) =~= concat_map(a, f) + concat_map(
            b.drop_last(),
            f,
        ) + f(b.last()));
    }
}

/// A chunk that occurs in none of the `f(x)` occurs nowhere when they are joined
/// by blank lines, unless it is the blank line itself.
pub proof fn lemma_join_blank_avoids<A>(s: Seq<A>, f: spec_fn(A) -> Seq<Chunk>, c: Chunk)
    requires
        c != Chunk::Blank,
        forall|i: int| 0 <= i < s.len() ==> avoids(#[trigger] f(s[i]), c),
    ensures
        avoids(join_blank(s, f), c),
    decreases s.len(),
{
    broadcast use lemma_avoids_concat;

    if s.len() > 1 {
        let t = s.drop_last();
        assert forall|i: int| 0 <= i < t.len() implies avoids(#[trigger] f(t[i]), c) by {
            assert(t[i] == s[i]);
        }
        lemma_join_blank_avoids(t, f, c);
        assert(avoids(f(s[s.len() - 1]), c));
        assert(avoids(seq![Chunk::Blank], c));
    } else if s.len() == 1 {
        assert(avoids(f(s[0]), c));
    }
}

/// `c` stands in `cs` at `k` and nowhere else.
pub open spec fn once(cs: Seq<Chunk>, c: Chunk, k: int) -> bool {
    &&& 0 <= k < cs.len()
    &&& cs[k] == c
    &&& forall|i: int| 0 <= i < cs.len() && cs[i] == c ==> i == k
}

pub proof fn lemma_once_between(a: Seq<Chunk>, m: Seq<Chunk>, b: Seq<Chunk>, c: Chunk, k: int)
    requires
        avoids(a, c),
        once(m, c, k),
        avoids(b, c),
    ensures
        once(a + m + b, c, a.len() + k),
{
    let all = a + m + b;
    assert(all[a.len() + k] == m[k]);
    assert forall|i: int| 0 <= i < all.len() && all[i] == c implies i == a.len() + k by {
        if i < a.len() {
            assert(all[i] == a[i]);
        } else if i < a.len() + m.len() {
            assert(all[i] == m[i - a.len()]);
        } else {
            assert(all[i] == b[i - a.len() - m.len()]);
        }
    }
}

/// The chunks of the `j`-th element stand in `concat_map` right after those before it.
pub proof fn lemma_concat_map_at<A>(s: Seq<A>, f: spec_fn(A) -> Seq<Chunk>, j: int)
    requires
        0 <= j < s.len(),
    ensures
        concat_map(s, f) == concat_map(s.subrange(0, j), f) + f(s[j]) + concat_map(
            s.subrange(j + 1, s.len() as int),
            f,
        ),
{
    let a = s.subrange(0, j + 1);
    let b = s.subrange(j + 1, s.len() as int);
    assert(s =~= a + b);
    lemma_concat_map_append(a, b, f);
    lemma_concat_map_step(s, j, f);
}

/// Appends one piece.
pub fn put(out: &mut Vec<Piece>, p: Piece)
    ensures
        chunks(final(out)@) == chunks(old(out)@).push(p@),
{
    let ghost before = out@;
    out.push(p);
    assert(chunks(out@) =~= chunks(before).push(p@));
}

/// Appends fixed syntax.
pub fn put_code(out: &mut Vec<Piece>, s: &str)
    ensures
        chunks(final(out)@) == chunks(old(out)@).push(Chunk::Code(s@)),
{
    put(out, Piece::Code(s.to_owned()));
}

/// Appends text taken from the input.
pub fn put_frag(out: &mut Vec<Piece>, s: &String)
    ensures
        chunks(final(out)@) == chunks(old(out)@).push(Chunk::Frag(s@)),
{
    put(out, Piece::Frag(s.clone()));
}

pub fn put_blank(out: &mut Vec<Piece>)
    ensures
        chunks(final(out)@) == chunks(old(out)@).push(Chunk::Blank),
{
    put(out, Piece::Blank);
}

/// The chunks of `f(x)` for each `x` of `s`, with a blank line between two of them.
pub open spec fn join_blank<A>(s: Seq<A>, f: spec_fn(A) -> Seq<Chunk>) -> Seq<Chunk>
    decreases s.len(),
{
    if s.len() == 0 {
        Seq::empty()
    } else if s.len() == 1 {
        f(s[0])
    } else {
        join_blank(s.drop_last(), f) + seq![Chunk::Blank] + f(s.last())
    }
}

pub proof fn lemma_join_blank_step<A>(s: Seq<A>, i: int, f: spec_fn(A) -> Seq<Chunk>)
    requires
        0 <= i < s.len(),
    ensures
        join_blank(s.subrange(0, i + 1), f) == join_blank(s.subrange(0, i), f) + (if i > 0 {
            seq![Chunk::Blank]
        } else {
            Seq::empty()
        }) + f(s[i]),
{
    assert(s.subrange(0, i + 1).drop_last() =~= s.subrange(0, i));
    if i == 0 {
        assert(join_blank(s.subrange(0, 0), f) + Seq::<Chunk>::empty() + f(s[0]) =~= f(s[0]));
    }
}

pub proof fn lemma_join_blank_all<A>(s: Seq<A>, f: spec_fn(A) -> Seq<Chunk>)
    ensures
        join_blank(s.subrange(0, s.len() as int), f) == join_blank(s, f),
{
    assert(s.subrange(0, s.len() as int) =~= s);
}

} // verus!
