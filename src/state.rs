//! The vendor entries of a `tracestate` value: members separated by `,`,
//! each `key=value`, in the order written.
use vstd::prelude::*;

verus! {

/// Byte `,`.
pub open spec fn comma() -> u8 {
    44
}

/// Byte `=`.
pub open spec fn equals() -> u8 {
    61
}

/// The pieces of `s` between commas, empty pieces included.
pub open spec fn members(s: Seq<u8>) -> Seq<Seq<u8>>
    decreases s.len(),
{
    if s.len() == 0 {
        seq![Seq::empty()]
    } else {
        let m = members(s.drop_last());
        if s.last() == comma() {
            m.push(Seq::empty())
        } else {
            m.update(m.len() - 1, m.last().push(s.last()))
        }
    }
}

/// A member's key and value: what stands before and after its first `=`.
pub open spec fn key_value(m: Seq<u8>) -> Option<(Seq<u8>, Seq<u8>)>
    decreases m.len(),
{
    if m.len() == 0 {
        None
    } else if m[0] == equals() {
        Some((Seq::empty(), m.drop_first()))
    } else {
        match key_value(m.drop_first()) {
            Some(kv) => Some((seq![m[0]] + kv.0, kv.1)),
            None => None,
        }
    }
}

/// The entries of a `tracestate` value, in order: each member that has a
/// non-empty key before an `=`; other members are skipped.
pub open spec fn entries(ms: Seq<Seq<u8>>) -> Seq<(Seq<u8>, Seq<u8>)>
    decreases ms.len(),
{
    if ms.len() == 0 {
        Seq::empty()
    } else {
        let rest = entries(ms.drop_last());
        match key_value(ms.last()) {
            Some(kv) => if kv.0.len() > 0 {
                rest.push(kv)
            } else {
                rest
            },
            None => rest,
        }
    }
}

pub open spec fn bytes_views(v: Seq<Vec<u8>>) -> Seq<Seq<u8>> {
    Seq::new(v.len(), |i: int| v[i]@)
}

pub open spec fn pair_views(v: Seq<(Vec<u8>, Vec<u8>)>) -> Seq<(Seq<u8>, Seq<u8>)> {
    Seq::new(v.len(), |i: int| (v[i].0@, v[i].1@))
}

proof fn lemma_members_nonempty(s: Seq<u8>)
    ensures
        members(s).len() >= 1,
    decreases s.len(),
{
    if s.len() > 0 {
        lemma_members_nonempty(s.drop_last());
    }
}

/// Splits `s` at every comma.
pub fn split_members(s: &Vec<u8>) -> (r: Vec<Vec<u8>>)
    ensures
        bytes_views(r@) == members(s@),
{
    let mut done: Vec<Vec<u8>> = Vec::new();
    let mut cur: Vec<u8> = Vec::new();
    let mut i: usize = 0;
    assert(s@.subrange(0, 0) =~= Seq::<u8>::empty());
    assert(bytes_views(done@).push(cur@) =~= members(Seq::<u8>::empty()));
    while i < s.len()
        invariant
            i <= s@.len(),
            bytes_views(done@).push(cur@) == members(s@.subrange(0, i as int)),
        decreases s@.len() - i,
    {
        let ghost pre = s@.subrange(0, i as int + 1);
        proof {
            assert(pre.drop_last() =~= s@.subrange(0, i as int));
            lemma_members_nonempty(pre.drop_last());
        }
        let b = s[i];
        if b == 44 {
            let ghost d = bytes_views(done@);
            let mut piece: Vec<u8> = Vec::new();
            std::mem::swap(&mut piece, &mut cur);
            done.push(piece);
            assert(bytes_views(done@) =~= d.push(done@.last()@));
            assert(bytes_views(done@).push(cur@) =~= members(pre));
        } else {
            cur.push(b);
            assert(bytes_views(done@).push(cur@) =~= members(pre));
        }
        i = i + 1;
    }
    assert(s@.subrange(0, s@.len() as int) =~= s@);
    let ghost d = bytes_views(done@);
    done.push(cur);
    assert(bytes_views(done@) =~= d.push(done@.last()@));
    done
}

proof fn lemma_key_value_at(m: Seq<u8>, i: int)
    requires
        0 <= i < m.len(),
        m[i] == equals(),
        forall|j: int| 0 <= j < i ==> m[j] != equals(),
    ensures
        key_value(m) == Some((m.subrange(0, i), m.subrange(i + 1, m.len() as int))),
    decreases i,
{
    if i > 0 {
        let t = m.drop_first();
        assert forall|j: int| 0 <= j < i - 1 implies t[j] != equals() by {
            assert(t[j] == m[j + 1]);
        }
        lemma_key_value_at(t, i - 1);
        assert(seq![m[0]] + t.subrange(0, i - 1) =~= m.subrange(0, i));
        assert(t.subrange(i, t.len() as int) =~= m.subrange(i + 1, m.len() as int));
    } else {
        assert(m.drop_first() =~= m.subrange(1, m.len() as int));
    }
}

proof fn lemma_key_value_none(m: Seq<u8>)
    requires
        forall|j: int| 0 <= j < m.len() ==> m[j] != equals(),
    ensures
        key_value(m) is None,
    decreases m.len(),
{
    if m.len() > 0 {
        let t = m.drop_first();
        assert forall|j: int| 0 <= j < t.len() implies t[j] != equals() by {
            assert(t[j] == m[j + 1]);
        }
        lemma_key_value_none(t);
    }
}

/// Splits a member at its first `=`; `None` where it has none.
pub fn split_key_value(m: &Vec<u8>) -> (r: Option<(Vec<u8>, Vec<u8>)>)
    ensures
        r.is_some() == key_value(m@).is_some(),
        r matches Some(kv) ==> key_value(m@) == Some((kv.0@, kv.1@)),
{
    let mut i: usize = 0;
    while i < m.len()
        invariant
            i <= m@.len(),
            forall|j: int| 0 <= j < i ==> m@[j] != equals(),
        decreases m@.len() - i,
    {
        if m[i] == 61 {
            proof {
                lemma_key_value_at(m@, i as int);
            }
            let key = slice_bytes(m, 0, i);
            let value = slice_bytes(m, i + 1, m.len());
            return Some((key, value));
        }
        i = i + 1;
    }
    proof {
        lemma_key_value_none(m@);
    }
    None
}

/// The bytes `m[from..to]`.
pub fn slice_bytes(m: &Vec<u8>, from: usize, to: usize) -> (r: Vec<u8>)
    requires
        from <= to <= m@.len(),
    ensures
        r@ == m@.subrange(from as int, to as int),
{
    let mut r: Vec<u8> = Vec::new();
    let mut i: usize = from;
    while i < to
        invariant
            from <= i <= to <= m@.len(),
            r@ == m@.subrange(from as int, i as int),
        decreases to - i,
    {
        r.push(m[i]);
        i = i + 1;
        assert(r@ =~= m@.subrange(from as int, i as int));
    }
    r
}

/// The vendor entries of a `tracestate` value, in order; members without
/// `=` or with an empty key are skipped.
pub fn parse_tracestate(s: &Vec<u8>) -> (r: Vec<(Vec<u8>, Vec<u8>)>)
    ensures
        pair_views(r@) == entries(members(s@)),
{
    let ms = split_members(s);
    let ghost mv = bytes_views(ms@);
    let mut out: Vec<(Vec<u8>, Vec<u8>)> = Vec::new();
    let mut i: usize = 0;
    assert(mv.subrange(0, 0) =~= Seq::<Seq<u8>>::empty());
    assert(pair_views(out@) =~= Seq::<(Seq<u8>, Seq<u8>)>::empty());
    while i < ms.len()
        invariant
            i <= ms@.len(),
            mv == bytes_views(ms@),
            pair_views(out@) == entries(mv.subrange(0, i as int)),
        decreases ms@.len() - i,
    {
        let ghost pre = mv.subrange(0, i as int + 1);
        assert(pre.drop_last() =~= mv.subrange(0, i as int));
        assert(pre.last() == ms@[i as int]@);
        match split_key_value(&ms[i]) {
            Some(kv) => {
                if kv.0.len() > 0 {
                    let ghost o = pair_views(out@);
                    let ghost kvv = (kv.0@, kv.1@);
                    out.push(kv);
                    assert(pair_views(out@) =~= o.push(kvv));
                }
            },
            None => {},
        }
        i = i + 1;
    }
    assert(mv.subrange(0, mv.len() as int) =~= mv);
    out
}

} // verus!
