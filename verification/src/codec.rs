//! The wire codec.
//!
//! A metric record `(name, cycle_count, free_heap_bytes)` travels between
//! guest and host in one of two byte layouts, chosen by the transport:
//!
//! - name-terminated (the syscall transport's report path):
//!   `name_bytes ++ 0x00 ++ cycle_count (8 bytes LE) ++ free_heap_bytes (8 bytes LE)`;
//! - count-prefixed (the hook transport's report path, which carries no heap
//!   field): `cycle_count (8 bytes LE) ++ name_bytes`.
//!
//! Numeric fields are fixed-width little-endian; the name is raw UTF-8 with
//! no length prefix. In the name-terminated layout the name therefore must
//! not contain a NUL byte, since the first NUL splits the name from the
//! numeric tail.

use vstd::prelude::*;
use vstd::bytes::*;
use vstd::slice::*;
use vstd::string::*;
use vstd::utf8::*;

use crate::DecodeError;

verus! {

/// The name-terminated wire image of a record: the name's bytes, one NUL,
/// then the two counters as fixed-width little-endian.
pub open spec fn spec_serialize_metric(
    name_bytes: Seq<u8>,
    cycle_count: u64,
    free_heap_bytes: u64,
) -> Seq<u8> {
    name_bytes + seq![0u8] + spec_u64_to_le_bytes(cycle_count) + spec_u64_to_le_bytes(
        free_heap_bytes,
    )
}

/// Index of the first NUL byte, if any.
pub open spec fn spec_find_nul(bytes: Seq<u8>) -> Option<int>
    decreases bytes.len(),
{
    if bytes.len() == 0 {
        None
    } else if bytes[0] == 0 {
        Some(0int)
    } else {
        match spec_find_nul(bytes.drop_first()) {
            Some(i) => Some(i + 1),
            None => None,
        }
    }
}

pub proof fn lemma_find_nul_none(bytes: Seq<u8>)
    requires
        forall|j: int| 0 <= j < bytes.len() ==> bytes[j] != 0,
    ensures
        spec_find_nul(bytes) is None,
    decreases bytes.len(),
{
    if bytes.len() > 0 {
        lemma_find_nul_none(bytes.drop_first());
    }
}

pub proof fn lemma_find_nul_at(bytes: Seq<u8>, i: int)
    requires
        0 <= i < bytes.len(),
        bytes[i] == 0,
        forall|j: int| 0 <= j < i ==> bytes[j] != 0,
    ensures
        spec_find_nul(bytes) == Some(i),
    decreases bytes.len(),
{
    if i > 0 {
        lemma_find_nul_at(bytes.drop_first(), i - 1);
    }
}

/// What decoding a name-terminated buffer yields: the record, or the exact
/// error. The buffer must hold a NUL, at least 16 bytes must follow the first
/// NUL, and the bytes before it must be valid UTF-8.
pub open spec fn spec_deserialize_metrics_call(bytes: Seq<u8>) -> Result<
    (Seq<char>, u64, u64),
    DecodeError,
> {
    match spec_find_nul(bytes) {
        None => Err(DecodeError::MissingTerminator),
        Some(i) => if bytes.len() < i + 17 {
            Err(DecodeError::Truncated)
        } else if !valid_utf8(bytes.take(i)) {
            Err(DecodeError::InvalidName)
        } else {
            Ok(
                (
                    decode_utf8(bytes.take(i)),
                    spec_u64_from_le_bytes(bytes.subrange(i + 1, i + 9)),
                    spec_u64_from_le_bytes(bytes.subrange(i + 9, i + 17)),
                ),
            )
        },
    }
}

/// Relies on std's str::from_utf8: it succeeds exactly on valid UTF-8 input
/// and returns the text whose byte encoding is that input.
#[verifier::external_body]
fn bytes_as_str(v: &[u8]) -> (r: Option<&str>)
    ensures
        r is Some <==> valid_utf8(v@),
        r matches Some(s) ==> s@ == decode_utf8(v@) && s.spec_bytes() == v@,
{
    std::str::from_utf8(v).ok()
}

/// Encode a record in the name-terminated layout.
pub fn serialize_metric(name: &str, cycle_count: u64, free_heap_bytes: u64) -> (r: Vec<u8>)
    requires
        !name@.contains('\0'),
    ensures
        r@ == spec_serialize_metric(name.spec_bytes(), cycle_count, free_heap_bytes),
{
    let name_bytes: &[u8] = name.as_bytes();
    let mut serialized: Vec<u8> = Vec::new();
    serialized.extend_from_slice(name_bytes);
    serialized.push(0);
    let mut cycle_bytes: Vec<u8> = u64_to_le_bytes(cycle_count);
    serialized.append(&mut cycle_bytes);
    let mut heap_bytes: Vec<u8> = u64_to_le_bytes(free_heap_bytes);
    serialized.append(&mut heap_bytes);
    proof {
        assert(serialized@ =~= spec_serialize_metric(
            name.spec_bytes(),
            cycle_count,
            free_heap_bytes,
        ));
    }
    serialized
}

/// Decode a name-terminated buffer back into `(name, cycle_count,
/// free_heap_bytes)`, or say exactly why it cannot be done.
pub fn deserialize_metrics_call(serialized: &[u8]) -> (r: Result<(String, u64, u64), DecodeError>)
    ensures
        match r {
            Ok(t) => spec_deserialize_metrics_call(serialized@) == Ok::<_, DecodeError>(
                (t.0@, t.1, t.2),
            ),
            Err(e) => spec_deserialize_metrics_call(serialized@) == Err::<
                (Seq<char>, u64, u64),
                _,
            >(e),
        },
{
    let n: usize = serialized.len();
    let mut i: usize = 0;
    while i < n && serialized[i] != 0
        invariant
            0 <= i <= n,
            n == serialized@.len(),
            forall|j: int| 0 <= j < i ==> serialized@[j] != 0,
        decreases n - i,
    {
        i = i + 1;
    }
    if i == n {
        proof {
            lemma_find_nul_none(serialized@);
        }
        return Err(DecodeError::MissingTerminator);
    }
    proof {
        lemma_find_nul_at(serialized@, i as int);
    }
    if n - i < 17 {
        return Err(DecodeError::Truncated);
    }
    let name_bytes: &[u8] = slice_subrange(serialized, 0, i);
    proof {
        assert(name_bytes@ =~= serialized@.take(i as int));
    }
    match bytes_as_str(name_bytes) {
        None => Err(DecodeError::InvalidName),
        Some(name_str) => {
            let name: String = name_str.to_owned();
            let cycles: u64 = u64_from_le_bytes(slice_subrange(serialized, i + 1, i + 9));
            let free_heap: u64 = u64_from_le_bytes(slice_subrange(serialized, i + 9, i + 17));
            Ok((name, cycles, free_heap))
        },
    }
}

/// The count-prefixed wire image of a record: the cycle count as fixed-width
/// little-endian, then the name's bytes. This layout carries no heap field
/// and needs no terminator, so the name may hold any bytes.
pub open spec fn spec_serialize_hook_record(name_bytes: Seq<u8>, cycle_count: u64) -> Seq<u8> {
    spec_u64_to_le_bytes(cycle_count) + name_bytes
}

/// What decoding a count-prefixed buffer yields: the name is everything after
/// the first 8 bytes.
pub open spec fn spec_deserialize_hook_record(bytes: Seq<u8>) -> Result<(u64, Seq<char>), DecodeError> {
    if bytes.len() < 8 {
        Err(DecodeError::Truncated)
    } else if !valid_utf8(bytes.skip(8)) {
        Err(DecodeError::InvalidName)
    } else {
        Ok((spec_u64_from_le_bytes(bytes.take(8)), decode_utf8(bytes.skip(8))))
    }
}

/// Encode a record in the count-prefixed layout.
pub fn serialize_hook_record(name: &str, cycle_count: u64) -> (r: Vec<u8>)
    ensures
        r@ == spec_serialize_hook_record(name.spec_bytes(), cycle_count),
{
    let mut buf: Vec<u8> = u64_to_le_bytes(cycle_count);
    buf.extend_from_slice(name.as_bytes());
    buf
}

/// Decode a count-prefixed buffer back into `(cycle_count, name)`.
pub fn deserialize_hook_record(bytes: &[u8]) -> (r: Result<(u64, String), DecodeError>)
    ensures
        match r {
            Ok(t) => spec_deserialize_hook_record(bytes@) == Ok::<_, DecodeError>((t.0, t.1@)),
            Err(e) => spec_deserialize_hook_record(bytes@) == Err::<(u64, Seq<char>), _>(e),
        },
{
    let n: usize = bytes.len();
    if n < 8 {
        return Err(DecodeError::Truncated);
    }
    let cycles: u64 = u64_from_le_bytes(slice_subrange(bytes, 0, 8));
    let name_bytes: &[u8] = slice_subrange(bytes, 8, n);
    proof {
        assert(name_bytes@ =~= bytes@.skip(8));
        assert(bytes@.subrange(0, 8) =~= bytes@.take(8));
    }
    match bytes_as_str(name_bytes) {
        None => Err(DecodeError::InvalidName),
        Some(name_str) => Ok((cycles, name_str.to_owned())),
    }
}

/// No byte of the UTF-8 encoding of a non-NUL scalar is a NUL byte: a 1-byte
/// encoding equals the scalar itself, and every byte of a longer encoding has
/// its high bit set.
proof fn lemma_encode_scalar_no_nul(scalar: u32)
    requires
        is_scalar(scalar),
        scalar != 0,
    ensures
        forall|j: int| 0 <= j < encode_scalar(scalar).len() ==> encode_scalar(scalar)[j] != 0,
{
    if has_width_1_encoding(scalar) {
        assert((scalar & 0x7F) as u8 != 0) by (bit_vector)
            requires
                scalar <= 0x7F,
                scalar != 0,
        ;
    } else {
        assert((0xC0 | ((scalar >> 6) & 0x1F) as u8) != 0) by (bit_vector);
        assert((0xE0 | ((scalar >> 12) & 0x0F) as u8) != 0) by (bit_vector);
        assert((0xF0 | ((scalar >> 18) & 0x7) as u8) != 0) by (bit_vector);
        assert((0x80 | (scalar & 0x3F) as u8) != 0) by (bit_vector);
        assert((0x80 | ((scalar >> 6) & 0x3F) as u8) != 0) by (bit_vector);
        assert((0x80 | ((scalar >> 12) & 0x3F) as u8) != 0) by (bit_vector);
    }
}

/// The UTF-8 encoding of text that contains no NUL character contains no NUL
/// byte. This is what lets the name-terminated layout use the first NUL byte
/// as the field separator.
pub proof fn lemma_encode_utf8_no_nul(chars: Seq<char>)
    requires
        !chars.contains('\0'),
    ensures
        forall|j: int| 0 <= j < encode_utf8(chars).len() ==> encode_utf8(chars)[j] != 0,
    decreases chars.len(),
{
    if chars.len() > 0 {
        let c = chars[0];
        assert(c != '\0') by {
            assert(chars.contains(c));
        }
        char_is_scalar(c);
        assert(c as u32 != 0) by {
            if c as u32 == 0 {
                char_u32_cast(c, 0u32);
                assert(0u32 as char == '\0');
            }
        }
        lemma_encode_scalar_no_nul(c as u32);
        assert(!chars.drop_first().contains('\0')) by {
            if chars.drop_first().contains('\0') {
                let k = choose|k: int|
                    0 <= k < chars.drop_first().len() && chars.drop_first()[k] == '\0';
                assert(chars[k + 1] == '\0');
            }
        }
        lemma_encode_utf8_no_nul(chars.drop_first());
        let head = encode_scalar(c as u32);
        let rest = encode_utf8(chars.drop_first());
        assert(encode_utf8(chars) == head + rest);
        assert forall|j: int| 0 <= j < encode_utf8(chars).len() implies encode_utf8(chars)[j]
            != 0 by {
            if j < head.len() {
                assert((head + rest)[j] == head[j]);
            } else {
                assert((head + rest)[j] == rest[j - head.len()]);
            }
        }
    }
}

/// Round trip for the name-terminated layout: decoding an encoded record
/// reproduces the record exactly, for every name without a NUL character and
/// all counter values.
pub proof fn lemma_metric_round_trip(name: Seq<char>, cycle_count: u64, free_heap_bytes: u64)
    requires
        !name.contains('\0'),
    ensures
        spec_deserialize_metrics_call(
            spec_serialize_metric(encode_utf8(name), cycle_count, free_heap_bytes),
        ) == Ok::<_, DecodeError>((name, cycle_count, free_heap_bytes)),
{
    lemma_auto_spec_u64_to_from_le_bytes();
    let nb = encode_utf8(name);
    let s = spec_serialize_metric(nb, cycle_count, free_heap_bytes);
    let i = nb.len() as int;
    lemma_encode_utf8_no_nul(name);
    lemma_find_nul_at(s, i);
    assert(s.take(i) =~= nb);
    encode_utf8_valid_utf8(name);
    encode_utf8_decode_utf8(name);
    assert(s.subrange(i + 1, i + 9) =~= spec_u64_to_le_bytes(cycle_count));
    assert(s.subrange(i + 9, i + 17) =~= spec_u64_to_le_bytes(free_heap_bytes));
}

/// Round trip for the count-prefixed layout: decoding an encoded record
/// reproduces the `(cycle_count, name)` pair exactly, for every name and
/// every counter value.
pub proof fn lemma_hook_record_round_trip(name: Seq<char>, cycle_count: u64)
    ensures
        spec_deserialize_hook_record(spec_serialize_hook_record(encode_utf8(name), cycle_count))
            == Ok::<_, DecodeError>((cycle_count, name)),
{
    lemma_auto_spec_u64_to_from_le_bytes();
    let s = spec_serialize_hook_record(encode_utf8(name), cycle_count);
    assert(s.skip(8) =~= encode_utf8(name));
    assert(s.take(8) =~= spec_u64_to_le_bytes(cycle_count));
    encode_utf8_valid_utf8(name);
    encode_utf8_decode_utf8(name);
}

} // verus!
