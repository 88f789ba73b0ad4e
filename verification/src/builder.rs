use vstd::prelude::*;
use vstd::string::StringExecFns;
use vstd::string::StringSliceAdditionalSpecFns;
use sha2::{Digest, Sha256};
use crate::block::SolanaBlock;

verus! {

/// The SHA-256 digest of a byte sequence: a pure function of the input
/// bytes, always 32 bytes long. Its value is not restated here; it is what
/// the hash function computes.
pub uninterp spec fn sha256_of(input: Seq<u8>) -> Seq<u8>;

/// Relies on sha2's `Sha256` through `Digest::digest`: the digest depends on
/// the input bytes alone and is 32 bytes long.
#[verifier::external_body]
fn sha256_digest(input: &Vec<u8>) -> (r: Vec<u8>)
    ensures
        r@ == sha256_of(input@),
        r@.len() == 32,
{
    Sha256::digest(input.as_slice()).to_vec()
}

/// The lowercase hex digit for a value below sixteen.
pub open spec fn hex_char(n: u8) -> char
    recommends
        n < 16,
{
    if n == 0 {
        '0'
    } else if n == 1 {
        '1'
    } else if n == 2 {
        '2'
    } else if n == 3 {
        '3'
    } else if n == 4 {
        '4'
    } else if n == 5 {
        '5'
    } else if n == 6 {
        '6'
    } else if n == 7 {
        '7'
    } else if n == 8 {
        '8'
    } else if n == 9 {
        '9'
    } else if n == 10 {
        'a'
    } else if n == 11 {
        'b'
    } else if n == 12 {
        'c'
    } else if n == 13 {
        'd'
    } else if n == 14 {
        'e'
    } else {
        'f'
    }
}

/// Lowercase hex encoding: two digits per byte, high nibble first.
pub open spec fn hex_of(bytes: Seq<u8>) -> Seq<char> {
    Seq::new(
        bytes.len() * 2,
        |i: int|
            if i % 2 == 0 {
                hex_char(bytes[i / 2] / 16)
            } else {
                hex_char(bytes[i / 2] % 16)
            },
    )
}

/// The one-character string for a hex digit.
fn hex_digit_str(n: u8) -> (r: &'static str)
    requires
        n < 16,
    ensures
        r@.len() == 1,
        r@[0] == hex_char(n),
{
    proof {
        reveal_strlit("0");
        reveal_strlit("1");
        reveal_strlit("2");
        reveal_strlit("3");
        reveal_strlit("4");
        reveal_strlit("5");
        reveal_strlit("6");
        reveal_strlit("7");
        reveal_strlit("8");
        reveal_strlit("9");
        reveal_strlit("a");
        reveal_strlit("b");
        reveal_strlit("c");
        reveal_strlit("d");
        reveal_strlit("e");
        reveal_strlit("f");
    }
    match n {
        0 => "0",
        1 => "1",
        2 => "2",
        3 => "3",
        4 => "4",
        5 => "5",
        6 => "6",
        7 => "7",
        8 => "8",
        9 => "9",
        10 => "a",
        11 => "b",
        12 => "c",
        13 => "d",
        14 => "e",
        _ => "f",
    }
}

/// Render bytes as lowercase hex, two digits per byte, high nibble first.
pub fn hex_lower(bytes: &Vec<u8>) -> (s: String)
    ensures
        s@ == hex_of(bytes@),
{
    let mut s = String::new();
    let mut i: usize = 0;
    while i < bytes.len()
        invariant
            i <= bytes@.len(),
            s@.len() == 2 * i,
            forall|j: int| 0 <= j < s@.len() ==> s@[j] == hex_of(bytes@)[j],
        decreases bytes@.len() - i,
    {
        let b = bytes[i];
        s.append(hex_digit_str(b / 16));
        s.append(hex_digit_str(b % 16));
        i += 1;
    }
    proof {
        assert(s@ =~= hex_of(bytes@));
    }
    s
}

/// The bytes of `n`, least significant first.
pub open spec fn le_bytes_of(n: u64) -> Seq<u8> {
    seq![
        (n & 0xff) as u8,
        ((n >> 8) & 0xff) as u8,
        ((n >> 16) & 0xff) as u8,
        ((n >> 24) & 0xff) as u8,
        ((n >> 32) & 0xff) as u8,
        ((n >> 40) & 0xff) as u8,
        ((n >> 48) & 0xff) as u8,
        ((n >> 56) & 0xff) as u8,
    ]
}

/// What a built block's hash is computed over: the slot in little-endian
/// bytes, then the previous hash's UTF-8 bytes, or the bytes of "default"
/// when there is no previous hash.
pub open spec fn block_preimage(slot: u64, previous: Option<&str>) -> Seq<u8> {
    le_bytes_of(slot) + match previous {
        Some(p) => p.spec_bytes(),
        None => "default".spec_bytes(),
    }
}

/// Append a byte slice to a buffer.
fn push_bytes(out: &mut Vec<u8>, bytes: &[u8])
    ensures
        final(out)@ == old(out)@ + bytes@,
{
    let ghost pre = out@;
    out.extend_from_slice(bytes);
    proof {
        assert(out@ =~= pre + bytes@);
    }
}

/// Build a block for `slot`: its hash is the lowercase hex SHA-256 digest of
/// the slot's little-endian bytes followed by the previous hash (or the
/// fixed placeholder when none is given).
pub fn build_block(slot: u64, previous_hash: Option<&str>) -> (b: SolanaBlock)
    ensures
        b.slot == slot,
        b.blockhash@ == hex_of(sha256_of(block_preimage(slot, previous_hash))),
{
    let mut input: Vec<u8> = Vec::new();
    input.push((slot & 0xff) as u8);
    input.push(((slot >> 8) & 0xff) as u8);
    input.push(((slot >> 16) & 0xff) as u8);
    input.push(((slot >> 24) & 0xff) as u8);
    input.push(((slot >> 32) & 0xff) as u8);
    input.push(((slot >> 40) & 0xff) as u8);
    input.push(((slot >> 48) & 0xff) as u8);
    input.push(((slot >> 56) & 0xff) as u8);
    proof {
        assert(input@ =~= le_bytes_of(slot));
    }
    match previous_hash {
        Some(p) => push_bytes(&mut input, p.as_bytes()),
        None => push_bytes(&mut input, "default".as_bytes()),
    }
    let digest = sha256_digest(&input);
    let blockhash = hex_lower(&digest);
    SolanaBlock { slot, blockhash }
}

} // verus!
