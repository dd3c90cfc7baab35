//! The primitives of the wire format: unsigned numbers of variable width and
//! texts with their length in front. The octets are written and read by
//! `bincode` in its standard configuration; this module states what they are.

use vstd::prelude::*;
use vstd::slice::slice_subrange;
use vstd::string::StringSliceAdditionalSpecFns;
use vstd::utf8::{decode_utf8, encode_utf8, valid_utf8};

verus! {

/// The number that some octets stand for, least significant octet first.
pub open spec fn le_value(bytes: Seq<u8>) -> nat
    decreases bytes.len(),
{
    if bytes.len() == 0 {
        0
    } else {
        bytes[0] as nat + 256 * le_value(bytes.drop_first())
    }
}

/// The `n` least significant octets of a number, least significant first.
pub open spec fn le_bytes(v: nat, n: nat) -> Seq<u8>
    decreases n,
{
    if n == 0 {
        Seq::<u8>::empty()
    } else {
        seq![(v % 256) as u8] + le_bytes(v / 256, (n - 1) as nat)
    }
}

/// An unsigned number on the wire: a single octet up to 250, and beyond that
/// a marker octet followed by the number in two, four or eight octets,
/// whichever is the least that holds it.
pub open spec fn wire_uint(v: nat) -> Seq<u8> {
    if v <= 250 {
        seq![v as u8]
    } else if v <= 0xffff {
        seq![251u8] + le_bytes(v, 2)
    } else if v <= 0xffff_ffff {
        seq![252u8] + le_bytes(v, 4)
    } else {
        seq![253u8] + le_bytes(v, 8)
    }
}

/// Reads an unsigned number off the front of some octets: the number and how
/// many octets it took. `widest` is the marker of the widest form that the
/// reader accepts; a wider form, a reserved marker and a number cut short all
/// read as nothing. A number need not be in its shortest form to be read.
pub open spec fn read_uint(b: Seq<u8>, widest: u8) -> Option<(nat, nat)> {
    if b.len() == 0 {
        None
    } else if b[0] <= 250 {
        Some((b[0] as nat, 1nat))
    } else if b[0] == 251 {
        if b.len() >= 3 {
            Some((le_value(b.subrange(1, 3)), 3nat))
        } else {
            None
        }
    } else if b[0] == 252 {
        if b.len() >= 5 {
            Some((le_value(b.subrange(1, 5)), 5nat))
        } else {
            None
        }
    } else if b[0] == 253 && widest >= 253 {
        if b.len() >= 9 {
            Some((le_value(b.subrange(1, 9)), 9nat))
        } else {
            None
        }
    } else {
        None
    }
}

/// Reads a 32-bit number off the front of some octets.
pub open spec fn read_u32(b: Seq<u8>) -> Option<(nat, nat)> {
    read_uint(b, 252)
}

/// Reads a 64-bit number off the front of some octets.
pub open spec fn read_u64(b: Seq<u8>) -> Option<(nat, nat)> {
    read_uint(b, 253)
}

/// A text on the wire: the number of its octets, then the octets.
pub open spec fn wire_text(s: Seq<char>) -> Seq<u8> {
    wire_uint(encode_utf8(s).len()) + encode_utf8(s)
}

/// Whether the octets start with a length that the rest can satisfy.
pub open spec fn length_fits(b: Seq<u8>) -> bool {
    match read_u64(b) {
        Some((n, k)) => k + n <= b.len(),
        None => false,
    }
}

/// Reads a text off the front of some octets: the text and how many octets it
/// took. Octets that are not a text read as nothing.
pub open spec fn read_text(b: Seq<u8>) -> Option<(Seq<char>, nat)> {
    match read_u64(b) {
        Some((n, k)) => {
            if k + n <= b.len() && valid_utf8(b.subrange(k as int, (k + n) as int)) {
                Some((decode_utf8(b.subrange(k as int, (k + n) as int)), k + n))
            } else {
                None
            }
        },
        None => None,
    }
}

/// Calls `bincode::encode_to_vec` on a `u32`. Writing a number into a vector
/// cannot fail.
#[verifier::external_body]
fn bincode_u32(v: u32) -> (r: Vec<u8>)
    ensures
        r@ == wire_uint(v as nat),
{
    bincode::encode_to_vec(v, bincode::config::standard()).unwrap_or_default()
}

/// Calls `bincode::encode_to_vec` on a text, which writes the number of its
/// octets as a 64-bit number and then the octets. Writing into a vector cannot
/// fail.
#[verifier::external_body]
fn bincode_text(s: &str) -> (r: Vec<u8>)
    ensures
        r@ == wire_uint(s.spec_bytes().len()) + s.spec_bytes(),
{
    bincode::encode_to_vec(s, bincode::config::standard()).unwrap_or_default()
}

/// Calls `bincode::decode_from_slice` for a `u32`.
#[verifier::external_body]
fn bincode_read_u32(src: &[u8]) -> (r: Option<(u32, usize)>)
    ensures
        match r {
            Some((v, used)) => read_u32(src@) == Some((v as nat, used as nat)),
            None => read_u32(src@) is None,
        },
{
    bincode::decode_from_slice::<u32, _>(src, bincode::config::standard()).ok()
}

/// Calls `bincode::decode_from_slice` for a `u64`.
#[verifier::external_body]
fn bincode_read_u64(src: &[u8]) -> (r: Option<(u64, usize)>)
    ensures
        match r {
            Some((v, used)) => read_u64(src@) == Some((v as nat, used as nat)),
            None => read_u64(src@) is None,
        },
{
    bincode::decode_from_slice::<u64, _>(src, bincode::config::standard()).ok()
}

/// Calls `bincode::decode_from_slice` for a `String`. The decoder allocates as
/// many octets as the length in front announces before it reads them, so the
/// call is made only where the octets that follow are that many.
#[verifier::external_body]
fn bincode_read_string(src: &[u8]) -> (r: Option<(String, usize)>)
    requires
        length_fits(src@),
    ensures
        match r {
            Some((s, used)) => read_text(src@) == Some((s@, used as nat)),
            None => read_text(src@) is None,
        },
{
    bincode::decode_from_slice::<String, _>(src, bincode::config::standard()).ok()
}

/// The octets of a number have the width asked for.
pub proof fn le_bytes_len(v: nat, n: nat)
    ensures
        le_bytes(v, n).len() == n,
    decreases n,
{
    if n > 0 {
        le_bytes_len(v / 256, (n - 1) as nat);
    }
}

/// A number's value is below 256 to the power of the number of its octets.
pub open spec fn pow256(n: nat) -> nat
    decreases n,
{
    if n == 0 {
        1
    } else {
        256 * pow256((n - 1) as nat)
    }
}

/// A number that fits in `n` octets is read back from them.
pub proof fn le_value_of_le_bytes(v: nat, n: nat)
    requires
        v < pow256(n),
    ensures
        le_value(le_bytes(v, n)) == v,
    decreases n,
{
    if n > 0 {
        let rest = le_bytes(v / 256, (n - 1) as nat);
        assert(v / 256 < pow256((n - 1) as nat));
        le_value_of_le_bytes(v / 256, (n - 1) as nat);
        assert(le_bytes(v, n).drop_first() =~= rest);
        assert(le_bytes(v, n)[0] == (v % 256) as u8);
    }
}

proof fn pow256_values()
    ensures
        pow256(2) == 0x1_0000,
        pow256(4) == 0x1_0000_0000,
        pow256(8) == 0x1_0000_0000_0000_0000,
{
    reveal_with_fuel(pow256, 9);
}

/// A number that was written is read back, with or without further octets
/// behind it, by a reader that accepts its width.
pub proof fn read_of_wire_uint(v: nat, rest: Seq<u8>, widest: u8)
    requires
        v <= u64::MAX,
        widest >= 253 || (widest >= 252 && v <= u32::MAX),
    ensures
        read_uint(wire_uint(v) + rest, widest) == Some((v, wire_uint(v).len())),
{
    pow256_values();
    let b = wire_uint(v) + rest;
    if v <= 250 {
    } else if v <= 0xffff {
        le_bytes_len(v, 2);
        le_value_of_le_bytes(v, 2);
        assert(b.subrange(1, 3) =~= le_bytes(v, 2));
    } else if v <= 0xffff_ffff {
        le_bytes_len(v, 4);
        le_value_of_le_bytes(v, 4);
        assert(b.subrange(1, 5) =~= le_bytes(v, 4));
    } else {
        le_bytes_len(v, 8);
        le_value_of_le_bytes(v, 8);
        assert(b.subrange(1, 9) =~= le_bytes(v, 8));
    }
}

/// A text that was written is read back, with or without further octets
/// behind it.
pub proof fn read_of_wire_text(s: Seq<char>, rest: Seq<u8>)
    requires
        encode_utf8(s).len() <= u64::MAX,
    ensures
        read_text(wire_text(s) + rest) == Some((s, wire_text(s).len())),
{
    let bytes = encode_utf8(s);
    let head = wire_uint(bytes.len());
    let b = wire_text(s) + rest;
    assert(b =~= head + (bytes + rest));
    read_of_wire_uint(bytes.len(), bytes + rest, 253);
    let k = head.len() as int;
    assert(b.subrange(k, k + bytes.len()) =~= bytes);
    vstd::utf8::encode_utf8_valid_utf8(s);
    vstd::utf8::encode_utf8_decode_utf8(s);
}

/// Appends a number to the octets written so far.
pub fn put_u32(out: &mut Vec<u8>, v: u32)
    ensures
        final(out)@ == old(out)@ + wire_uint(v as nat),
{
    let mut bytes = bincode_u32(v);
    out.append(&mut bytes);
}

/// Appends a text to the octets written so far.
pub fn put_text(out: &mut Vec<u8>, s: &str)
    ensures
        final(out)@ == old(out)@ + wire_text(s@),
{
    let mut bytes = bincode_text(s);
    out.append(&mut bytes);
}

/// Reads a number off the octets from `pos` on. On success the position
/// behind the number is handed back with it.
pub fn take_u32(src: &[u8], pos: usize) -> (r: Option<(u32, usize)>)
    requires
        pos <= src@.len(),
    ensures
        match r {
            Some((v, next)) => {
                &&& read_u32(src@.subrange(pos as int, src@.len() as int)) == Some(
                    (v as nat, (next - pos) as nat),
                )
                &&& pos < next <= src@.len()
            },
            None => read_u32(src@.subrange(pos as int, src@.len() as int)) is None,
        },
{
    let rest = slice_subrange(src, pos, src.len());
    match bincode_read_u32(rest) {
        Some((v, used)) => Some((v, pos + used)),
        None => None,
    }
}

/// Reads a text off the octets from `pos` on. On success the position behind
/// the text is handed back with it.
pub fn take_text(src: &[u8], pos: usize) -> (r: Option<(String, usize)>)
    requires
        pos <= src@.len(),
    ensures
        match r {
            Some((s, next)) => {
                &&& read_text(src@.subrange(pos as int, src@.len() as int)) == Some(
                    (s@, (next - pos) as nat),
                )
                &&& pos < next <= src@.len()
            },
            None => read_text(src@.subrange(pos as int, src@.len() as int)) is None,
        },
{
    let rest = slice_subrange(src, pos, src.len());
    match bincode_read_u64(rest) {
        Some((n, used)) => {
            if n > (rest.len() - used) as u64 {
                return None;
            }
            match bincode_read_string(rest) {
                Some((s, used)) => Some((s, pos + used)),
                None => None,
            }
        },
        None => None,
    }
}

} // verus!
