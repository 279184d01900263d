//! The canonical message that a client signs.
use vstd::prelude::*;

verus! {

/// The view of an optional header value.
pub open spec fn header_view(h: Option<&[u8]>) -> Option<Seq<u8>> {
    match h {
        Some(v) => Some(v@),
        None => None,
    }
}

/// The timestamp part of the signed message: the raw header bytes, or
/// nothing when the header is absent.
pub open spec fn timestamp_component(timestamp: Option<Seq<u8>>) -> Seq<u8> {
    match timestamp {
        Some(t) => t,
        None => Seq::empty(),
    }
}

/// The signed message: timestamp bytes, then body bytes, with no separator.
pub open spec fn canonical_message(timestamp: Option<Seq<u8>>, body: Seq<u8>) -> Seq<u8> {
    timestamp_component(timestamp) + body
}

/// Appends `src` to the end of `dst`.
pub fn append_bytes(dst: &mut Vec<u8>, src: &[u8])
    ensures
        final(dst)@ == old(dst)@ + src@,
{
    let ghost start = dst@;
    let mut i: usize = 0;
    while i < src.len()
        invariant
            i <= src@.len(),
            dst@ == start + src@.subrange(0, i as int),
        decreases src@.len() - i,
    {
        dst.push(src[i]);
        i = i + 1;
        assert(dst@ =~= start + src@.subrange(0, i as int));
    }
    assert(src@.subrange(0, i as int) =~= src@);
}

/// Builds the message whose signature the request must carry: the timestamp
/// header's bytes (empty when the header is absent) followed by the body.
pub fn build_message(timestamp: Option<&[u8]>, body: &[u8]) -> (r: Vec<u8>)
    ensures
        r@ == canonical_message(header_view(timestamp), body@),
{
    let mut message: Vec<u8> = Vec::new();
    match timestamp {
        Some(t) => append_bytes(&mut message, t),
        None => {},
    }
    append_bytes(&mut message, body);
    assert(message@ =~= canonical_message(header_view(timestamp), body@));
    message
}

} // verus!
