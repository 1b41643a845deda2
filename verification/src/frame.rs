//! Frames on the byte stream between server and client: the length of the body
//! as a little-endian `usize`, then the body.
use crate::le::{
    le_bytes, le_value, lemma_le_bytes_len, lemma_le_bytes_of_value, lemma_le_value_bound,
    lemma_le_value_of_bytes, lemma_pow256_is_pow, pow256, read_le,
};
use vstd::prelude::*;

verus! {

/// The number of bytes of a frame header: the size of a `usize`.
pub open spec fn header_size() -> nat {
    vstd::layout::size_of::<usize>()
}

/// The header of a frame whose body has `len` bytes.
pub open spec fn frame_header(len: nat) -> Seq<u8> {
    le_bytes(len, header_size())
}

/// The frame that carries `body`.
pub open spec fn frame(body: Seq<u8>) -> Seq<u8> {
    frame_header(body.len()) + body
}

/// The header size is 4 or 8, and a header can write every `usize` and nothing more.
proof fn lemma_header_range()
    ensures
        header_size() == 4 || header_size() == 8,
        pow256(header_size()) == usize::MAX as nat + 1,
{
    broadcast use vstd::layout::layout_of_primitives;

    vstd::layout::unsigned_int_max_values();
    lemma_pow256_is_pow(header_size());
    assert(usize::BITS == 32 || usize::BITS == 64);
}

/// A frame starts with the header of its body's length, and the body follows it:
/// reading the header gives back the body's length, and what follows the header
/// is the body.
pub proof fn lemma_frame_roundtrip(body: Seq<u8>)
    requires
        body.len() <= usize::MAX,
    ensures
        frame(body).len() == header_size() + body.len(),
        frame(body).subrange(0, header_size() as int) == frame_header(body.len()),
        le_value(frame_header(body.len())) == body.len(),
        frame(body).skip(header_size() as int) == body,
{
    lemma_header_range();
    lemma_le_bytes_len(body.len(), header_size());
    lemma_le_value_of_bytes(body.len(), header_size());
    assert(frame(body).subrange(0, header_size() as int) =~= frame_header(body.len()));
    assert(frame(body).skip(header_size() as int) =~= body);
}

/// Frames follow one another on a stream: from a frame and whatever follows it, the
/// header gives the body's length, the body is that many bytes after the header,
/// and what follows is left as it was.
pub proof fn lemma_frames_split(body: Seq<u8>, rest: Seq<u8>)
    requires
        body.len() <= usize::MAX,
    ensures
        le_value((frame(body) + rest).subrange(0, header_size() as int)) == body.len(),
        (frame(body) + rest).subrange(header_size() as int, (header_size() + body.len()) as int) == body,
        (frame(body) + rest).skip((header_size() + body.len()) as int) == rest,
{
    lemma_frame_roundtrip(body);
    let stream = frame(body) + rest;
    assert(stream.subrange(0, header_size() as int) =~= frame_header(body.len()));
    assert(stream.subrange(header_size() as int, (header_size() + body.len()) as int) =~= body);
    assert(stream.skip((header_size() + body.len()) as int) =~= rest);
}

/// Every header is the header of one body length: the one that it reads as.
pub proof fn lemma_header_roundtrip(header: Seq<u8>)
    requires
        header.len() == header_size(),
    ensures
        le_value(header) <= usize::MAX,
        frame_header(le_value(header)) == header,
{
    lemma_header_range();
    lemma_le_value_bound(header);
    lemma_le_bytes_of_value(header);
}

/// The number of bytes of a frame header on this machine.
pub fn header_len() -> (n: usize)
    ensures
        n == header_size(),
        n == 4 || n == 8,
{
    proof {
        lemma_header_range();
    }
    core::mem::size_of::<usize>()
}

/// The header of a frame whose body has `len` bytes.
pub fn encode_frame_header(len: usize) -> (header: Vec<u8>)
    ensures
        header@ == frame_header(len as nat),
{
    let n = header_len();
    let mut header: Vec<u8> = Vec::new();
    let mut rest: usize = len;
    let mut i: usize = 0;
    while i < n
        invariant
            n == header_size(),
            i <= n,
            header@ + le_bytes(rest as nat, (n - i) as nat) == le_bytes(len as nat, n as nat),
        decreases n - i,
    {
        let ghost before = header@;
        let ghost k = (n - i) as nat;
        assert(le_bytes(rest as nat, k) == seq![(rest as nat % 256) as u8] + le_bytes(
            rest as nat / 256,
            (k - 1) as nat,
        ));
        header.push((rest % 256) as u8);
        proof {
            assert(header@ + le_bytes(rest as nat / 256, (k - 1) as nat) =~= before + le_bytes(
                rest as nat,
                k,
            ));
        }
        rest = rest / 256;
        i = i + 1;
    }
    assert(header@ + le_bytes(rest as nat, 0) =~= header@);
    header
}

/// The frame that carries `body`: its header, then the body.
pub fn encode_frame(body: &[u8]) -> (bytes: Vec<u8>)
    ensures
        bytes@ == frame(body@),
{
    let mut bytes = encode_frame_header(body.len());
    let mut copy = vstd::slice::slice_to_vec(body);
    bytes.append(&mut copy);
    bytes
}

/// The length of the body that a frame header announces.
pub fn frame_body_len(header: &[u8]) -> (len: usize)
    requires
        header.len() == header_size(),
    ensures
        len as nat == le_value(header@),
{
    let n = header_len();
    proof {
        lemma_header_range();
        lemma_le_value_bound(header@);
        assert(header@.subrange(0, n as int) =~= header@);
    }
    read_le(header, 0, n) as usize
}

} // verus!
