//! The bincode wire format under `bincode::config::standard()`, as far as the
//! actor protocol uses it, and the trusted calls into bincode.
//!
//! The encoding is the one that bincode's own specification documents
//! (little endian, variable-length integers, collections prefixed by their
//! length); decoding reads that layout back, and fails where the bytes do not
//! hold it.
use crate::le::{le_bytes, le_value, lemma_le_bytes_len, lemma_le_value_of_bytes, pow256, read_le};
use vstd::prelude::*;

verus! {

/// bincode's variable-length encoding of an unsigned integer: one byte below 251,
/// otherwise a marker byte (251, 252, 253) followed by a `u16`, `u32` or `u64`.
pub open spec fn varint(v: u64) -> Seq<u8> {
    if v <= 250 {
        seq![v as u8]
    } else if v <= 0xffff {
        seq![251u8] + le_bytes(v as nat, 2)
    } else if v <= 0xffff_ffff {
        seq![252u8] + le_bytes(v as nat, 4)
    } else {
        seq![253u8] + le_bytes(v as nat, 8)
    }
}

/// The encoding of a `u32`, such as an enum's variant index.
pub open spec fn varint_u32(v: u32) -> Seq<u8> {
    varint(v as u64)
}

/// A byte collection: its length as a `u64`, then the bytes.
pub open spec fn length_prefixed(b: Seq<u8>) -> Seq<u8> {
    varint(b.len() as u64) + b
}

/// The encoding of a message of the protocol: a `u64` id, the variant index of its
/// command, and its payload bytes.
pub open spec fn wire_message(id: u64, tag: u32, payload: Seq<u8>) -> Seq<u8> {
    varint(id) + varint_u32(tag) + length_prefixed(payload)
}

/// The `n` little-endian bytes of `s` from `start` on, read as a number, and the
/// position after them; `None` where `s` ends before.
pub open spec fn fixed_at(s: Seq<u8>, start: nat, n: nat) -> Option<(u64, nat)> {
    if start + n <= s.len() {
        Some((le_value(s.subrange(start as int, (start + n) as int)) as u64, start + n))
    } else {
        None
    }
}

/// The integer that the variable-length encoding writes at `pos` of `s`, read as a
/// `u64`, and the position after it; `None` where none starts there.
pub open spec fn varint_at(s: Seq<u8>, pos: nat) -> Option<(u64, nat)> {
    if pos >= s.len() {
        None
    } else if s[pos as int] <= 250 {
        Some((s[pos as int] as u64, pos + 1))
    } else if s[pos as int] == 251 {
        fixed_at(s, pos + 1, 2)
    } else if s[pos as int] == 252 {
        fixed_at(s, pos + 1, 4)
    } else if s[pos as int] == 253 {
        fixed_at(s, pos + 1, 8)
    } else {
        None
    }
}

/// The payload length that the start of a message announces (after its id and
/// its command), and the position where the payload starts.
pub open spec fn announced_payload(s: Seq<u8>) -> Option<(u64, nat)> {
    match varint_at(s, 0) {
        None => None,
        Some(id) => match varint_at(s, id.1) {
            None => None,
            Some(tag) => varint_at(s, tag.1),
        },
    }
}

/// Whether the start of a message announces a payload longer than the bytes that
/// follow.
pub open spec fn payload_overruns(s: Seq<u8>) -> bool {
    match announced_payload(s) {
        Some(p) => p.0 > s.len() - p.1,
        None => false,
    }
}

/// Reads the integer that the variable-length encoding writes at `pos`.
pub fn read_varint(data: &[u8], pos: usize) -> (r: Option<(u64, usize)>)
    requires
        pos <= data.len(),
    ensures
        match r {
            Some(x) => varint_at(data@, pos as nat) == Some((x.0, x.1 as nat)) && x.1 <= data.len(),
            None => varint_at(data@, pos as nat) is None,
        },
{
    if pos >= data.len() {
        return None;
    }
    let marker = data[pos];
    if marker <= 250 {
        return Some((marker as u64, pos + 1));
    }
    let n: usize = if marker == 251 {
        2
    } else if marker == 252 {
        4
    } else if marker == 253 {
        8
    } else {
        return None;
    };
    if n <= data.len() - pos - 1 {
        let value = read_le(data, pos + 1, n);
        Some((value, pos + 1 + n))
    } else {
        None
    }
}

/// Whether the payload that the start of a message announces fits in the bytes
/// that follow (`true` where no payload length can be read).
pub fn payload_fits(data: &[u8]) -> (b: bool)
    ensures
        b == !payload_overruns(data@),
{
    let id = match read_varint(data, 0) {
        Some(x) => x,
        None => return true,
    };
    let tag = match read_varint(data, id.1) {
        Some(x) => x,
        None => return true,
    };
    match read_varint(data, tag.1) {
        Some((len, start)) => len <= (data.len() - start) as u64,
        None => true,
    }
}

/// Reading the variable-length encoding of an integer gives the integer back,
/// and the position just after the encoding.
pub proof fn lemma_varint_at_encoding(v: u64, s: Seq<u8>, pos: nat)
    requires
        pos + varint(v).len() <= s.len(),
        s.subrange(pos as int, (pos + varint(v).len()) as int) == varint(v),
    ensures
        varint_at(s, pos) == Some((v, pos + varint(v).len())),
{
    let e = varint(v);
    assert(s[pos as int] == s.subrange(pos as int, (pos + e.len()) as int)[0]);
    if v > 250 {
        let n: nat = if v <= 0xffff {
            2
        } else if v <= 0xffff_ffff {
            4
        } else {
            8
        };
        reveal_with_fuel(pow256, 9);
        assert(v < pow256(n));
        lemma_le_bytes_len(v as nat, n);
        lemma_le_value_of_bytes(v as nat, n);
        let t = s.subrange(pos as int, (pos + e.len()) as int);
        assert(e.len() == 1 + n);
        assert(e.subrange(1, e.len() as int) =~= le_bytes(v as nat, n));
        assert(s.subrange((pos + 1) as int, (pos + 1 + n) as int) =~= t.subrange(1, e.len() as int));
    }
}

/// The `u32` that the variable-length encoding writes at `pos` of `s`, and the
/// position after it: as `varint_at`, but the marker of a `u64` (253) is refused.
pub open spec fn varint_u32_at(s: Seq<u8>, pos: nat) -> Option<(u32, nat)> {
    if pos < s.len() && s[pos as int] != 253 {
        match varint_at(s, pos) {
            Some(v) => Some((v.0 as u32, v.1)),
            None => None,
        }
    } else {
        None
    }
}

/// The id and the command index at the start of a message, as they are read before
/// its payload; `None` where they cannot be read.
pub open spec fn message_head(s: Seq<u8>) -> Option<(u64, u32)> {
    match varint_at(s, 0) {
        None => None,
        Some(id) => match varint_u32_at(s, id.1) {
            None => None,
            Some(tag) => Some((id.0, tag.0)),
        },
    }
}

/// Reads the id and the command index at the start of a message.
pub fn read_message_head(data: &[u8]) -> (head: Option<(u64, u32)>)
    ensures
        head == message_head(data@),
{
    let id = match read_varint(data, 0) {
        Some(x) => x,
        None => return None,
    };
    if id.1 >= data.len() || data[id.1] == 253 {
        return None;
    }
    match read_varint(data, id.1) {
        Some((tag, _)) => Some((id.0, tag as u32)),
        None => None,
    }
}

/// A message read from the start of `s`: its `u64` id, the `u32` variant index of
/// its command and its payload (a `u64` length, then that many bytes), with the
/// number of bytes read; `None` where the bytes do not hold one.
pub open spec fn message_at(s: Seq<u8>) -> Option<(u64, u32, Seq<u8>, nat)> {
    match varint_at(s, 0) {
        None => None,
        Some(id) => match varint_u32_at(s, id.1) {
            None => None,
            Some(tag) => match varint_at(s, tag.1) {
                None => None,
                Some(len) => if len.0 <= s.len() - len.1 {
                    Some((id.0, tag.0, s.subrange(len.1 as int, len.1 + len.0), (len.1 + len.0) as nat))
                } else {
                    None
                },
            },
        },
    }
}

/// Reading the encoding of a `u32` gives the `u32` back, and the position just after
/// the encoding.
pub proof fn lemma_varint_u32_at_encoding(v: u32, s: Seq<u8>, pos: nat)
    requires
        pos + varint_u32(v).len() <= s.len(),
        s.subrange(pos as int, (pos + varint_u32(v).len()) as int) == varint_u32(v),
    ensures
        varint_u32_at(s, pos) == Some((v, pos + varint_u32(v).len())),
{
    lemma_varint_at_encoding(v as u64, s, pos);
    assert(s[pos as int] == s.subrange(pos as int, (pos + varint_u32(v).len()) as int)[0]);
}

/// Reading a message's encoding, followed by anything, gives the message back and
/// reads exactly its encoding.
pub proof fn lemma_message_at_encoding(id: u64, tag: u32, payload: Seq<u8>, s: Seq<u8>)
    requires
        payload.len() <= u64::MAX,
        wire_message(id, tag, payload).is_prefix_of(s),
    ensures
        message_at(s) == Some((id, tag, payload, wire_message(id, tag, payload).len())),
{
    let a = varint(id);
    let b = varint_u32(tag);
    let c = varint(payload.len() as u64);
    let m = wire_message(id, tag, payload);
    let i: int = a.len() as int;
    let j: int = i + b.len();
    let k: int = j + c.len();
    assert(m =~= a + b + c + payload);
    assert(s.subrange(0, i) =~= a) by {
        assert(s.subrange(0, i) =~= m.subrange(0, i));
    }
    lemma_varint_at_encoding(id, s, 0);
    assert(s.subrange(i, j) =~= b) by {
        assert(s.subrange(i, j) =~= m.subrange(i, j));
    }
    lemma_varint_u32_at_encoding(tag, s, i as nat);
    assert(s.subrange(j, k) =~= c) by {
        assert(s.subrange(j, k) =~= m.subrange(j, k));
    }
    lemma_varint_at_encoding(payload.len() as u64, s, j as nat);
    assert(s.subrange(k, k + payload.len()) =~= payload) by {
        assert(s.subrange(k, k + payload.len()) =~= m.subrange(k, k + payload.len()));
    }
}

#[verifier::external_type_specification]
#[verifier::external_body]
pub struct ExEncodeError(bincode::error::EncodeError);

#[verifier::external_type_specification]
#[verifier::external_body]
pub struct ExDecodeError(bincode::error::DecodeError);

/// Calls `bincode::encode_to_vec` on the tuple `(id, tag, payload)` with
/// `bincode::config::standard()`. Trusted: the result is `Ok` and holds the
/// documented encoding of the three fields in order (a tuple is its fields in
/// order; a slice is its length, then its bytes). The source writes into a `Vec`
/// that never refuses bytes, and the standard configuration sets no limit.
#[verifier::external_body]
pub(crate) fn encode_message(id: u64, tag: u32, payload: &[u8]) -> (encoded: Result<Vec<u8>, bincode::error::EncodeError>)
    ensures
        encoded is Ok,
        encoded->Ok_0@ == wire_message(id, tag, payload@),
{
    bincode::encode_to_vec((id, tag, payload), bincode::config::standard())
}

/// Calls `bincode::encode_to_vec` on a `u32` with `bincode::config::standard()`.
/// Trusted: the result is `Ok` and holds the documented variable-length encoding.
#[verifier::external_body]
pub(crate) fn encode_u32(v: u32) -> (encoded: Result<Vec<u8>, bincode::error::EncodeError>)
    ensures
        encoded is Ok,
        encoded->Ok_0@ == varint_u32(v),
{
    bincode::encode_to_vec(v, bincode::config::standard())
}

/// Calls `bincode::decode_from_slice::<(u64, u32, Vec<u8>), _>` with
/// `bincode::config::standard()`. Trusted: it succeeds exactly where the bytes
/// begin with a message in the documented layout (`message_at`), and then gives
/// that message's fields and the number of bytes that it read. A `u64` is read
/// with markers up to 253, a `u32` with markers up to 252; a payload length that
/// cannot be read, or bytes that end too early, fail. Required: the payload length
/// that the bytes announce fits in what follows, for bincode sizes the payload's
/// buffer by that length before reading it (`Vec::resize`), which panics or aborts
/// where no allocation can hold it.
#[verifier::external_body]
pub(crate) fn decode_message(data: &[u8]) -> (decoded: Result<((u64, u32, Vec<u8>), usize), bincode::error::DecodeError>)
    requires
        !payload_overruns(data@),
    ensures
        decoded is Ok <==> message_at(data@) is Some,
        decoded is Ok ==> message_at(data@) == Some(
            (decoded->Ok_0.0.0, decoded->Ok_0.0.1, decoded->Ok_0.0.2@, decoded->Ok_0.1 as nat),
        ),
{
    bincode::decode_from_slice(data, bincode::config::standard())
}

/// Calls `bincode::decode_from_slice::<u32, _>` with `bincode::config::standard()`.
/// Trusted: it succeeds exactly where the bytes begin with a `u32` in the documented
/// variable-length layout (`varint_u32_at`), and then gives it and the number of
/// bytes that it read.
#[verifier::external_body]
pub(crate) fn decode_u32(data: &[u8]) -> (decoded: Result<(u32, usize), bincode::error::DecodeError>)
    ensures
        decoded is Ok <==> varint_u32_at(data@, 0) is Some,
        decoded is Ok ==> varint_u32_at(data@, 0) == Some((decoded->Ok_0.0, decoded->Ok_0.1 as nat)),
{
    bincode::decode_from_slice(data, bincode::config::standard())
}

} // verus!
