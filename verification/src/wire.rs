//! The wire form of the fields that records and requests are made of.
//!
//! Strings are read and written by the `borsh` crate; the fixed-size fields
//! (a byte, a flag, an address, a 64-bit count) are read and written here.

use crate::address::Address;
use borsh::BorshDeserialize;
use vstd::prelude::*;
use vstd::slice::slice_subrange;
use vstd::utf8::{
    decode_utf8, decode_utf8_encode_utf8, encode_utf8, encode_utf8_decode_utf8,
    encode_utf8_valid_utf8, valid_utf8,
};

verus! {

/// The number that four bytes hold, least significant byte first.
pub open spec fn u32_le_value(b: Seq<u8>) -> int
    recommends
        b.len() == 4,
{
    b[0] + 256 * (b[1] + 256 * (b[2] + 256 * b[3]))
}

/// The four bytes that hold `n`, least significant byte first.
pub open spec fn u32_le_bytes(n: int) -> Seq<u8>
    recommends
        0 <= n <= u32::MAX,
{
    let n1 = n / 256;
    let n2 = n1 / 256;
    let n3 = n2 / 256;
    seq![(n % 256) as u8, (n1 % 256) as u8, (n2 % 256) as u8, (n3 % 256) as u8]
}

/// The number that eight bytes hold, least significant byte first.
pub open spec fn u64_le_value(b: Seq<u8>) -> int
    recommends
        b.len() == 8,
{
    u32_le_value(b.subrange(0, 4)) + 0x1_0000_0000 * u32_le_value(b.subrange(4, 8))
}

/// The eight bytes that hold `x`, least significant byte first.
pub open spec fn u64_le_bytes(x: u64) -> Seq<u8> {
    u32_le_bytes((x % 0x1_0000_0000) as int) + u32_le_bytes((x / 0x1_0000_0000) as int)
}

/// Four bytes written for a number hold that number.
pub proof fn lemma_u32_le_round_trip(n: int)
    requires
        0 <= n <= u32::MAX,
    ensures
        u32_le_bytes(n).len() == 4,
        u32_le_value(u32_le_bytes(n)) == n,
{
}

/// The wire form of a string: the length of its UTF-8 form as a 32-bit
/// little-endian count, then the UTF-8 bytes.
#[verifier::opaque]
pub open spec fn string_encoding(s: Seq<char>) -> Seq<u8>
    recommends
        encode_utf8(s).len() <= u32::MAX,
{
    u32_le_bytes(encode_utf8(s).len() as int) + encode_utf8(s)
}

/// Reads a string from the front of `b`: the string and the bytes behind it,
/// or `None` where `b` is too short for the prefix or for the length that the
/// prefix announces, or where the announced bytes are not UTF-8.
#[verifier::opaque]
pub open spec fn string_decoding(b: Seq<u8>) -> Option<(Seq<char>, Seq<u8>)> {
    if b.len() < 4 {
        None
    } else {
        let n = u32_le_value(b.subrange(0, 4));
        if b.len() - 4 < n {
            None
        } else if !valid_utf8(b.subrange(4, 4 + n)) {
            None
        } else {
            Some((decode_utf8(b.subrange(4, 4 + n)), b.subrange(4 + n, b.len() as int)))
        }
    }
}

/// Reads one byte from the front of `b`.
pub open spec fn byte_decoding(b: Seq<u8>) -> Option<(u8, Seq<u8>)> {
    if b.len() < 1 {
        None
    } else {
        Some((b[0], b.subrange(1, b.len() as int)))
    }
}

/// Reads a flag from the front of `b`: one byte, 0 for false and 1 for true.
pub open spec fn flag_decoding(b: Seq<u8>) -> Option<(bool, Seq<u8>)> {
    if b.len() < 1 || b[0] > 1 {
        None
    } else {
        Some((b[0] == 1, b.subrange(1, b.len() as int)))
    }
}

/// The wire form of a flag.
pub open spec fn flag_encoding(flag: bool) -> Seq<u8> {
    seq![if flag { 1u8 } else { 0u8 }]
}

/// Reads an address from the front of `b`: its 32 bytes as they stand.
pub open spec fn address_decoding(b: Seq<u8>) -> Option<(Seq<u8>, Seq<u8>)> {
    if b.len() < 32 {
        None
    } else {
        Some((b.subrange(0, 32), b.subrange(32, b.len() as int)))
    }
}

/// Reads a 64-bit count from the front of `b`: eight bytes, least
/// significant first.
pub open spec fn u64_decoding(b: Seq<u8>) -> Option<(u64, Seq<u8>)> {
    if b.len() < 8 {
        None
    } else {
        Some((u64_le_value(b.subrange(0, 8)) as u64, b.subrange(8, b.len() as int)))
    }
}

/// Calls `borsh::to_vec` on a string slice.
///
/// Trusted: borsh writes the byte length of the string as a 32-bit
/// little-endian count, followed by the string's UTF-8 bytes, and refuses a
/// string whose length does not fit in 32 bits.
#[verifier::external_body]
fn borsh_string_bytes(s: &str) -> (r: Option<Vec<u8>>)
    ensures
        r is Some <==> encode_utf8(s@).len() <= u32::MAX,
        r matches Some(bytes) ==> bytes@ == string_encoding(s@),
{
    match borsh::to_vec(s) {
        Ok(bytes) => Some(bytes),
        Err(_) => None,
    }
}

/// Calls `<String as borsh::BorshDeserialize>::deserialize` on `input`.
///
/// Trusted: borsh reads a 32-bit little-endian length and then that many
/// bytes, which must be UTF-8; it fails where the input ends early or the
/// bytes are not UTF-8. On success the second component is the input behind
/// the string.
#[verifier::external_body]
pub(crate) fn take_string<'a>(input: &'a [u8]) -> (r: Option<(String, &'a [u8])>)
    ensures
        match r {
            Some((s, rest)) => string_decoding(input@) == Some((s@, rest@)),
            None => string_decoding(input@) is None,
        },
{
    let mut rest = input;
    match String::deserialize(&mut rest) {
        Ok(s) => Some((s, rest)),
        Err(_) => None,
    }
}

/// A string put behind its own length written back is read as itself, and
/// what follows it is left over.
pub proof fn lemma_string_round_trip(s: Seq<char>, tail: Seq<u8>)
    requires
        encode_utf8(s).len() <= u32::MAX,
    ensures
        string_decoding(string_encoding(s) + tail) == Some((s, tail)),
        string_encoding(s).len() == 4 + encode_utf8(s).len(),
{
    reveal(string_encoding);
    reveal(string_decoding);
    let body = encode_utf8(s);
    let prefix = u32_le_bytes(body.len() as int);
    let b = string_encoding(s) + tail;
    lemma_u32_le_round_trip(body.len() as int);
    encode_utf8_valid_utf8(s);
    encode_utf8_decode_utf8(s);
    assert(prefix.len() == 4);
    assert(b.subrange(0, 4) =~= prefix);
    let n = u32_le_value(b.subrange(0, 4));
    assert(n == body.len());
    assert(b.subrange(4, 4 + n) =~= body);
    assert(b.subrange(4 + n, b.len() as int) =~= tail);
}

/// The number of bytes in the UTF-8 form of `s`.
pub fn byte_len(s: &str) -> (n: usize)
    ensures
        n == encode_utf8(s@).len(),
{
    s.as_bytes().len()
}

/// Where a string is read from the front of a buffer, the buffer holds the
/// four bytes of the prefix, the UTF-8 form of the string, and what was left
/// over.
pub proof fn lemma_string_frame(b: Seq<u8>)
    ensures
        string_decoding(b) matches Some((s, rest)) ==> b.len() == 4 + encode_utf8(s).len()
            + rest.len(),
{
    reveal(string_decoding);
    if string_decoding(b) is Some {
        let n = u32_le_value(b.subrange(0, 4));
        decode_utf8_encode_utf8(b.subrange(4, 4 + n));
    }
}

/// Appends the wire form of `s` to `out`. Returns `false`, and leaves `out`
/// as it was, where the string is too long for a 32-bit length.
pub fn put_string(out: &mut Vec<u8>, s: &str) -> (ok: bool)
    ensures
        ok <==> encode_utf8(s@).len() <= u32::MAX,
        ok ==> final(out)@ == old(out)@ + string_encoding(s@),
        !ok ==> final(out)@ == old(out)@,
{
    match borsh_string_bytes(s) {
        Some(mut bytes) => {
            out.append(&mut bytes);
            true
        },
        None => false,
    }
}

/// Reads one byte from the front of `input`.
pub fn take_byte<'a>(input: &'a [u8]) -> (r: Option<(u8, &'a [u8])>)
    ensures
        match r {
            Some((byte, rest)) => byte_decoding(input@) == Some((byte, rest@)),
            None => byte_decoding(input@) is None,
        },
{
    if input.len() < 1 {
        None
    } else {
        Some((input[0], slice_subrange(input, 1, input.len())))
    }
}

/// Reads a flag from the front of `input`.
pub fn take_flag<'a>(input: &'a [u8]) -> (r: Option<(bool, &'a [u8])>)
    ensures
        match r {
            Some((flag, rest)) => flag_decoding(input@) == Some((flag, rest@)),
            None => flag_decoding(input@) is None,
        },
{
    if input.len() < 1 || input[0] > 1 {
        None
    } else {
        Some((input[0] == 1, slice_subrange(input, 1, input.len())))
    }
}

/// Reads an address from the front of `input`.
pub fn take_address<'a>(input: &'a [u8]) -> (r: Option<(Address, &'a [u8])>)
    ensures
        match r {
            Some((address, rest)) => address_decoding(input@) == Some((address@, rest@)),
            None => address_decoding(input@) is None,
        },
{
    if input.len() < 32 {
        None
    } else {
        let mut bytes: [u8; 32] = [0u8; 32];
        let mut i: usize = 0;
        while i < 32
            invariant
                i <= 32,
                input@.len() >= 32,
                forall|j: int| 0 <= j < i ==> bytes@[j] == input@[j],
            decreases 32 - i,
        {
            bytes[i] = input[i];
            i += 1;
        }
        let address = Address { bytes };
        assert(address@ =~= input@.subrange(0, 32));
        Some((address, slice_subrange(input, 32, input.len())))
    }
}

/// Reads a 64-bit count from the front of `input`.
pub fn take_u64<'a>(input: &'a [u8]) -> (r: Option<(u64, &'a [u8])>)
    ensures
        match r {
            Some((x, rest)) => u64_decoding(input@) == Some((x, rest@)),
            None => u64_decoding(input@) is None,
        },
{
    if input.len() < 8 {
        None
    } else {
        let low: u64 = input[0] as u64 + 256 * (input[1] as u64 + 256 * (input[2] as u64 + 256
            * (input[3] as u64)));
        let high: u64 = input[4] as u64 + 256 * (input[5] as u64 + 256 * (input[6] as u64 + 256
            * (input[7] as u64)));
        assert(low == u32_le_value(input@.subrange(0, 8).subrange(0, 4)));
        assert(high == u32_le_value(input@.subrange(0, 8).subrange(4, 8)));
        Some((low + 0x1_0000_0000 * high, slice_subrange(input, 8, input.len())))
    }
}

/// Appends the wire form of a flag to `out`.
pub fn put_flag(out: &mut Vec<u8>, flag: bool)
    ensures
        final(out)@ == old(out)@ + flag_encoding(flag),
{
    out.push(if flag { 1u8 } else { 0u8 });
    assert(out@ =~= old(out)@ + flag_encoding(flag));
}

/// Appends the 32 bytes of an address to `out`.
pub fn put_address(out: &mut Vec<u8>, address: &Address)
    ensures
        final(out)@ == old(out)@ + address@,
{
    let mut bytes = address.to_vec();
    out.append(&mut bytes);
}

/// Appends a 64-bit count to `out`, least significant byte first.
pub fn put_u64(out: &mut Vec<u8>, x: u64)
    ensures
        final(out)@ == old(out)@ + u64_le_bytes(x),
{
    let low: u64 = x % 0x1_0000_0000;
    let high: u64 = x / 0x1_0000_0000;
    out.push((low % 256) as u8);
    out.push((low / 256 % 256) as u8);
    out.push((low / 256 / 256 % 256) as u8);
    out.push((low / 256 / 256 / 256 % 256) as u8);
    out.push((high % 256) as u8);
    out.push((high / 256 % 256) as u8);
    out.push((high / 256 / 256 % 256) as u8);
    out.push((high / 256 / 256 / 256 % 256) as u8);
    assert(out@ =~= old(out)@ + u64_le_bytes(x));
}

/// A count written and read back is itself.
pub proof fn lemma_u64_round_trip(x: u64, tail: Seq<u8>)
    ensures
        u64_decoding(u64_le_bytes(x) + tail) == Some((x, tail)),
        u64_le_bytes(x).len() == 8,
{
    let low = (x % 0x1_0000_0000) as int;
    let high = (x / 0x1_0000_0000) as int;
    lemma_u32_le_round_trip(low);
    lemma_u32_le_round_trip(high);
    let b = u64_le_bytes(x) + tail;
    assert(b.subrange(0, 8) =~= u64_le_bytes(x));
    assert(u64_le_bytes(x).subrange(0, 4) =~= u32_le_bytes(low));
    assert(u64_le_bytes(x).subrange(4, 8) =~= u32_le_bytes(high));
    assert(b.subrange(8, b.len() as int) =~= tail);
}

} // verus!
