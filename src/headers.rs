//! A flat list of HTTP headers, with case-insensitive lookup by name.
use vstd::prelude::*;

verus! {

/// One header line: its name and its value, as bytes.
pub struct Header {
    pub name: Vec<u8>,
    pub value: Vec<u8>,
}

/// What the contracts see of a header list: (name, value) pairs in order.
pub type HeadersView = Seq<(Seq<u8>, Seq<u8>)>;

pub open spec fn view_headers(h: Seq<Header>) -> HeadersView {
    Seq::new(h.len(), |i: int| (h[i].name@, h[i].value@))
}

/// ASCII lower case of one byte.
pub open spec fn lower(b: u8) -> u8 {
    if 65 <= b <= 90 {
        (b + 32) as u8
    } else {
        b
    }
}

/// `name` spells the lowercase `key`, ignoring ASCII case.
pub open spec fn name_is(name: Seq<u8>, key: Seq<u8>) -> bool {
    &&& name.len() == key.len()
    &&& forall|i: int| 0 <= i < key.len() ==> lower(#[trigger] name[i]) == key[i]
}

/// The value of the first header whose name is `key`.
pub open spec fn find_header(h: HeadersView, key: Seq<u8>) -> Option<Seq<u8>>
    decreases h.len(),
{
    if h.len() == 0 {
        None
    } else if name_is(h[0].0, key) {
        Some(h[0].1)
    } else {
        find_header(h.drop_first(), key)
    }
}

/// `h` with every header named `key` left out, the others in order.
pub open spec fn without_header(h: HeadersView, key: Seq<u8>) -> HeadersView
    decreases h.len(),
{
    if h.len() == 0 {
        h
    } else {
        let rest = without_header(h.drop_last(), key);
        if name_is(h.last().0, key) {
            rest
        } else {
            rest.push(h.last())
        }
    }
}

/// `h` with `key` set to `value` alone: earlier headers of that name are gone.
pub open spec fn set_header(h: HeadersView, key: Seq<u8>, value: Seq<u8>) -> HeadersView {
    without_header(h, key).push((key, value))
}

/// Whether `name` spells the lowercase `key`, ignoring ASCII case.
pub fn name_matches(name: &Vec<u8>, key: &Vec<u8>) -> (r: bool)
    ensures
        r == name_is(name@, key@),
{
    if name.len() != key.len() {
        return false;
    }
    let mut i: usize = 0;
    while i < key.len()
        invariant
            name@.len() == key@.len(),
            i <= key@.len(),
            forall|k: int| 0 <= k < i ==> lower(#[trigger] name@[k]) == key@[k],
        decreases key@.len() - i,
    {
        let b = name[i];
        let l: u8 = if 65 <= b && b <= 90 {
            b + 32
        } else {
            b
        };
        if l != key[i] {
            return false;
        }
        i = i + 1;
    }
    true
}

/// The value of the first header named `key`, if any.
pub fn header_value<'a>(headers: &'a Vec<Header>, key: &Vec<u8>) -> (r: Option<&'a Vec<u8>>)
    ensures
        r.is_some() == find_header(view_headers(headers@), key@).is_some(),
        r.is_some() ==> find_header(view_headers(headers@), key@) == Some(r.unwrap()@),
{
    let ghost hv = view_headers(headers@);
    let mut i: usize = 0;
    assert(hv.subrange(0, hv.len() as int) =~= hv);
    while i < headers.len()
        invariant
            i <= hv.len(),
            hv == view_headers(headers@),
            find_header(hv, key@) == find_header(hv.subrange(i as int, hv.len() as int), key@),
        decreases hv.len() - i,
    {
        let ghost rest = hv.subrange(i as int, hv.len() as int);
        assert(rest.drop_first() =~= hv.subrange(i + 1, hv.len() as int));
        if name_matches(&headers[i].name, key) {
            return Some(&headers[i].value);
        }
        i = i + 1;
    }
    None
}

/// Removes every header named `key`, keeping the others in order.
pub fn remove_header(headers: &mut Vec<Header>, key: &Vec<u8>)
    ensures
        view_headers(final(headers)@) == without_header(view_headers(old(headers)@), key@),
{
    let ghost hv = view_headers(headers@);
    let n = headers.len();
    let mut kept: Vec<Header> = Vec::new();
    let mut i: usize = 0;
    assert(hv.subrange(0, 0) =~= Seq::<(Seq<u8>, Seq<u8>)>::empty());
    while i < n
        invariant
            n == hv.len(),
            i <= n,
            hv == view_headers(headers@),
            view_headers(kept@) == without_header(hv.subrange(0, i as int), key@),
        decreases n - i,
    {
        let ghost pre = hv.subrange(0, i as int + 1);
        assert(pre.drop_last() =~= hv.subrange(0, i as int));
        if !name_matches(&headers[i].name, key) {
            let ghost old_kept = kept@;
            let e = Header { name: headers[i].name.clone(), value: headers[i].value.clone() };
            kept.push(e);
            assert(view_headers(kept@) =~= view_headers(old_kept).push(pre.last()));
        }
        i = i + 1;
    }
    assert(hv.subrange(0, n as int) =~= hv);
    *headers = kept;
}

/// Sets the header `key` to `value`, replacing every earlier header of that name.
pub fn put_header(headers: &mut Vec<Header>, key: &Vec<u8>, value: Vec<u8>)
    ensures
        view_headers(final(headers)@) == set_header(view_headers(old(headers)@), key@, value@),
{
    remove_header(headers, key);
    headers.push(Header { name: key.clone(), value });
    assert(view_headers(headers@) =~= set_header(view_headers(old(headers)@), key@, value@));
}

} // verus!
