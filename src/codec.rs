use vstd::prelude::*;
use vstd::arithmetic::power2::pow2;
use borsh::{BorshDeserialize, BorshSerialize};

verus! {

/// The eight bytes of `x`, least significant first.
pub open spec fn le_bytes(x: u64) -> Seq<u8> {
    Seq::new(8, |i: int| ((x as int / pow2((8 * i) as nat) as int) % 256) as u8)
}

/// Relies on borsh's `BorshSerialize::try_to_vec` for `u64`, which writes
/// `to_le_bytes` into a vector and cannot fail on one.
#[verifier::external_body]
fn encode_u64(x: u64) -> (r: Vec<u8>)
    ensures
        r@ == le_bytes(x),
{
    x.try_to_vec().unwrap()
}

/// Relies on borsh's `BorshDeserialize::try_from_slice` for `u64`: it
/// accepts exactly eight bytes, read least significant first.
#[verifier::external_body]
fn decode_u64(data: &[u8]) -> (r: Option<u64>)
    ensures
        r is Some <==> data@.len() == 8,
        r matches Some(v) ==> le_bytes(v) == data@,
{
    u64::try_from_slice(data).ok()
}

/// Copies `src` into `data` from position `at` on.
pub fn write_bytes_at(data: &mut [u8], at: usize, src: &[u8])
    requires
        at + src@.len() <= old(data)@.len(),
    ensures
        final(data)@ == old(data)@.subrange(0, at as int) + src@ + old(data)@.subrange(
            at + src@.len(),
            old(data)@.len() as int,
        ),
{
    let n = src.len();
    let len = data.len();
    let mut i: usize = 0;
    while i < n
        invariant
            len == data@.len(),
            n == src@.len(),
            at + n <= data@.len(),
            data@.len() == old(data)@.len(),
            0 <= i <= n,
            forall|j: int| 0 <= j < at ==> data@[j] == old(data)@[j],
            forall|j: int| at + n <= j < data@.len() ==> data@[j] == old(data)@[j],
            forall|j: int| 0 <= j < i ==> data@[at + j] == src@[j],
        decreases n - i,
    {
        data[at + i] = src[i];
        i = i + 1;
    }
    assert(data@ =~= old(data)@.subrange(0, at as int) + src@ + old(data)@.subrange(
        at + src@.len(),
        old(data)@.len() as int,
    ));
}

/// Writes the encoding of `x` into `data` at position `at`.
pub fn write_u64_at(data: &mut [u8], at: usize, x: u64)
    requires
        at + 8 <= old(data)@.len(),
    ensures
        final(data)@ == old(data)@.subrange(0, at as int) + le_bytes(x) + old(data)@.subrange(
            at + 8,
            old(data)@.len() as int,
        ),
{
    let bytes = encode_u64(x);
    write_bytes_at(data, at, bytes.as_slice());
}

/// The `n` bytes of `data` from position `at` on.
pub fn read_bytes(data: &[u8], at: usize, n: usize) -> (r: Vec<u8>)
    requires
        at + n <= data@.len(),
    ensures
        r@ == data@.subrange(at as int, at + n),
{
    let len = data.len();
    let mut r: Vec<u8> = Vec::new();
    let mut i: usize = 0;
    while i < n
        invariant
            len == data@.len(),
            at + n <= data@.len(),
            0 <= i <= n,
            r@ == data@.subrange(at as int, at + i),
        decreases n - i,
    {
        r.push(data[at + i]);
        i = i + 1;
        assert(r@ =~= data@.subrange(at as int, at + i));
    }
    r
}

/// Reads the `u64` encoded at position `at` of `data`.
pub fn read_u64_at(data: &[u8], at: usize) -> (r: u64)
    requires
        at + 8 <= data@.len(),
    ensures
        le_bytes(r) == data@.subrange(at as int, at + 8),
{
    let bytes = read_bytes(data, at, 8);
    match decode_u64(bytes.as_slice()) {
        Some(v) => v,
        None => {
            assert(false);
            0
        },
    }
}

} // verus!
