//! The record of one span: identity, timing, attributes and parent link.
use vstd::prelude::*;
use crate::codec::{TraceContext, TraceContextView};

verus! {

#[derive(PartialEq, Eq, Structural, Clone, Copy, Debug)]
pub enum SpanKind {
    Server,
    Client,
    Internal,
}

/// A scalar attribute value.
pub enum AttrValue {
    Str(Vec<u8>),
    Int(i64),
    Bool(bool),
}

pub enum AttrValueView {
    Str(Seq<u8>),
    Int(i64),
    Bool(bool),
}

impl View for AttrValue {
    type V = AttrValueView;

    open spec fn view(&self) -> AttrValueView {
        match self {
            AttrValue::Str(s) => AttrValueView::Str(s@),
            AttrValue::Int(i) => AttrValueView::Int(*i),
            AttrValue::Bool(b) => AttrValueView::Bool(*b),
        }
    }
}

pub struct Attribute {
    pub key: Vec<u8>,
    pub value: AttrValue,
}

pub type AttrsView = Seq<(Seq<u8>, AttrValueView)>;

pub open spec fn attr_views(s: Seq<Attribute>) -> AttrsView {
    Seq::new(s.len(), |i: int| (s[i].key@, s[i].value@))
}

/// The entries whose key is not `key`, in order.
pub open spec fn without_key(s: AttrsView, key: Seq<u8>) -> AttrsView {
    s.filter(|a: (Seq<u8>, AttrValueView)| a.0 != key)
}

/// The attributes as a map: a later entry for a key overrides an earlier one.
pub open spec fn attr_map(s: AttrsView) -> Map<Seq<u8>, AttrValueView>
    decreases s.len(),
{
    if s.len() == 0 {
        Map::empty()
    } else {
        attr_map(s.drop_last()).insert(s.last().0, s.last().1)
    }
}

pub struct Span {
    pub context: TraceContext,
    pub name: Vec<u8>,
    pub kind: SpanKind,
    pub start: u64,
    pub parent_span_id: Option<u64>,
    pub attributes: Vec<Attribute>,
    pub end: Option<u64>,
}

pub struct SpanView {
    pub context: TraceContextView,
    pub name: Seq<u8>,
    pub kind: SpanKind,
    pub start: u64,
    pub parent_span_id: Option<u64>,
    pub attributes: Map<Seq<u8>, AttrValueView>,
    pub end: Option<u64>,
}

impl View for Span {
    type V = SpanView;

    open spec fn view(&self) -> SpanView {
        SpanView {
            context: self.context@,
            name: self.name@,
            kind: self.kind,
            start: self.start,
            parent_span_id: self.parent_span_id,
            attributes: attr_map(attr_views(self.attributes@)),
            end: self.end,
        }
    }
}

impl SpanView {
    /// A finished span never ends before it starts.
    pub open spec fn wf(self) -> bool {
        self.end matches Some(e) ==> e >= self.start
    }

    pub open spec fn is_finished(self) -> bool {
        self.end.is_some()
    }

    /// The end time recorded when finishing at `now`: never before the start.
    pub open spec fn end_at(self, now: u64) -> u64 {
        if now >= self.start {
            now
        } else {
            self.start
        }
    }
}

proof fn lemma_attr_map_without(s: AttrsView, kept: AttrsView, key: Seq<u8>)
    requires
        kept == without_key(s, key),
    ensures
        attr_map(kept) == attr_map(s).remove(key),
    decreases s.len(),
{
    reveal(Seq::filter);
    if s.len() == 0 {
        assert(attr_map(s).remove(key) =~= Map::empty());
    } else {
        let p = s.drop_last();
        let kp = without_key(p, key);
        lemma_attr_map_without(p, kp, key);
        if s.last().0 != key {
            assert(kept == kp.push(s.last()));
            assert(kept.drop_last() =~= kp);
            assert(attr_map(kept) =~= attr_map(s).remove(key));
        } else {
            assert(kept == kp);
            assert(attr_map(kept) =~= attr_map(s).remove(key));
        }
    }
}

impl Span {
    pub fn is_finished(&self) -> (r: bool)
        ensures
            r == self@.is_finished(),
    {
        self.end.is_some()
    }

    /// Sets `key` to `value`, replacing an earlier value; does nothing once
    /// the span is finished.
    pub fn set_attribute(&mut self, key: Vec<u8>, value: AttrValue)
        ensures
            old(self)@.is_finished() ==> final(self)@ == old(self)@,
            !old(self)@.is_finished() ==> final(self)@ == (SpanView {
                attributes: old(self)@.attributes.insert(key@, value@),
                ..old(self)@
            }),
    {
        if self.end.is_some() {
            return;
        }
        let ghost s = attr_views(self.attributes@);
        let n = self.attributes.len();
        let mut kept: Vec<Attribute> = Vec::new();
        let mut i: usize = 0;
        proof {
            reveal(Seq::filter);
            assert(s.subrange(0, 0) =~= AttrsView::empty());
        }
        while i < n
            invariant
                n == s.len(),
                i <= n,
                attr_views(self.attributes@) == s,
                attr_views(kept@) == without_key(s.subrange(0, i as int), key@),
            decreases n - i,
        {
            proof {
                reveal(Seq::filter);
                assert(s.subrange(0, i + 1).drop_last() =~= s.subrange(0, i as int));
            }
            if !bytes_equal(&self.attributes[i].key, &key) {
                let a = Attribute { key: self.attributes[i].key.clone(), value: self.attributes[i].value.duplicate() };
                let ghost before = kept@;
                kept.push(a);
                assert(attr_views(kept@) =~= attr_views(before).push(s[i as int]));
            }
            i = i + 1;
        }
        assert(s.subrange(0, n as int) =~= s);
        proof {
            lemma_attr_map_without(s, attr_views(kept@), key@);
        }
        let ghost kv = attr_views(kept@);
        kept.push(Attribute { key, value });
        assert(attr_views(kept@).drop_last() =~= kv);
        self.attributes = kept;
        assert(attr_map(attr_views(self.attributes@)) =~= attr_map(s).insert(key@, value@));
    }
}

impl AttrValue {
    pub fn duplicate(&self) -> (r: AttrValue)
        ensures
            r@ == self@,
    {
        match self {
            AttrValue::Str(s) => AttrValue::Str(s.clone()),
            AttrValue::Int(i) => AttrValue::Int(*i),
            AttrValue::Bool(b) => AttrValue::Bool(*b),
        }
    }
}

/// Whether two byte strings are equal.
pub fn bytes_equal(a: &Vec<u8>, b: &Vec<u8>) -> (r: bool)
    ensures
        r == (a@ == b@),
{
    if a.len() != b.len() {
        return false;
    }
    let mut i: usize = 0;
    while i < a.len()
        invariant
            a@.len() == b@.len(),
            i <= a@.len(),
            forall|k: int| 0 <= k < i ==> a@[k] == b@[k],
        decreases a@.len() - i,
    {
        if a[i] != b[i] {
            return false;
        }
        i = i + 1;
    }
    assert(a@ =~= b@);
    true
}

} // verus!
