use crate::state::{Pubkey, MAX_NOTE_LEN, SIGNATURE_LEN};
use vstd::bytes::{
    lemma_auto_spec_u64_to_from_le_bytes, spec_u64_from_le_bytes, spec_u64_to_le_bytes,
    u64_from_le_bytes, u64_to_le_bytes,
};
use vstd::prelude::*;
use vstd::slice::{slice_subrange, slice_to_vec};

verus! {

/// Bytes of a leaf behind its ciphertext: signature, amount, timestamp and
/// depositor.
pub const LEAF_TRAILER_LEN: usize = SIGNATURE_LEN + 8 + 8 + 32;

/// One entry of the commitment log: what a compressed deposit commits to.
#[derive(Clone, Debug, PartialEq, Eq)]
pub struct CompressedLeaf {
    pub ciphertext: Vec<u8>,
    pub signature: Vec<u8>,
    pub amount: u64,
    pub timestamp: i64,
    pub depositor: Pubkey,
}

/// What a [`CompressedLeaf`] holds, as a mathematical value.
pub struct CompressedLeafView {
    pub ciphertext: Seq<u8>,
    pub signature: Seq<u8>,
    pub amount: u64,
    pub timestamp: i64,
    pub depositor: Seq<u8>,
}

impl View for CompressedLeaf {
    type V = CompressedLeafView;

    open spec fn view(&self) -> CompressedLeafView {
        CompressedLeafView {
            ciphertext: self.ciphertext@,
            signature: self.signature@,
            amount: self.amount,
            timestamp: self.timestamp,
            depositor: self.depositor.bytes@,
        }
    }
}

impl CompressedLeafView {
    /// Each field has the length that the leaf layout gives it.
    pub open spec fn well_formed(self) -> bool {
        &&& self.ciphertext.len() <= MAX_NOTE_LEN
        &&& self.signature.len() == SIGNATURE_LEN
        &&& self.depositor.len() == 32
    }
}

/// The bytes of a leaf: ciphertext, signature, amount and timestamp (each
/// eight bytes, little-endian, the timestamp in two's complement), depositor.
pub open spec fn leaf_bytes(leaf: CompressedLeafView) -> Seq<u8> {
    leaf.ciphertext + leaf.signature + spec_u64_to_le_bytes(leaf.amount) + spec_u64_to_le_bytes(
        leaf.timestamp as u64,
    ) + leaf.depositor
}

/// The leaf that `bytes` spell, if they spell one.
///
/// The fields behind the ciphertext have fixed lengths, so the ciphertext is
/// whatever precedes the last `LEAF_TRAILER_LEN` bytes.
pub open spec fn parse_leaf(bytes: Seq<u8>) -> Option<CompressedLeafView> {
    if bytes.len() < LEAF_TRAILER_LEN || bytes.len() > MAX_NOTE_LEN + LEAF_TRAILER_LEN {
        None
    } else {
        let n = bytes.len() - LEAF_TRAILER_LEN;
        Some(
            CompressedLeafView {
                ciphertext: bytes.subrange(0, n),
                signature: bytes.subrange(n, n + 64),
                amount: spec_u64_from_le_bytes(bytes.subrange(n + 64, n + 72)),
                timestamp: spec_u64_from_le_bytes(bytes.subrange(n + 72, n + 80)) as i64,
                depositor: bytes.subrange(n + 80, n + 112),
            },
        )
    }
}

proof fn lemma_timestamp_round_trip(t: i64, x: u64)
    ensures
        (t as u64) as i64 == t,
        (x as i64) as u64 == x,
{
    assert((t as u64) as i64 == t) by (bit_vector);
    assert((x as i64) as u64 == x) by (bit_vector);
}

/// Parsing undoes encoding: the bytes of a well-formed leaf spell that leaf.
pub proof fn lemma_parse_leaf_bytes(leaf: CompressedLeafView)
    requires
        leaf.well_formed(),
    ensures
        parse_leaf(leaf_bytes(leaf)) == Some(leaf),
{
    lemma_auto_spec_u64_to_from_le_bytes();
    lemma_timestamp_round_trip(leaf.timestamp, 0);
    let bytes = leaf_bytes(leaf);
    let n = leaf.ciphertext.len() as int;
    assert(bytes.len() == n + 112);
    assert(bytes.subrange(0, n) =~= leaf.ciphertext);
    assert(bytes.subrange(n, n + 64) =~= leaf.signature);
    assert(bytes.subrange(n + 64, n + 72) =~= spec_u64_to_le_bytes(leaf.amount));
    assert(bytes.subrange(n + 72, n + 80) =~= spec_u64_to_le_bytes(leaf.timestamp as u64));
    assert(bytes.subrange(n + 80, n + 112) =~= leaf.depositor);
}

/// Encoding undoes parsing: bytes that spell a leaf are the bytes of that leaf.
pub proof fn lemma_leaf_bytes_parse(bytes: Seq<u8>)
    requires
        parse_leaf(bytes) is Some,
    ensures
        parse_leaf(bytes)->0.well_formed(),
        leaf_bytes(parse_leaf(bytes)->0) == bytes,
{
    lemma_auto_spec_u64_to_from_le_bytes();
    let leaf = parse_leaf(bytes)->0;
    let n = bytes.len() - 112;
    let amount_bytes = bytes.subrange(n + 64, n + 72);
    let time_bytes = bytes.subrange(n + 72, n + 80);
    lemma_timestamp_round_trip(0, spec_u64_from_le_bytes(time_bytes));
    assert(spec_u64_to_le_bytes(spec_u64_from_le_bytes(amount_bytes)) == amount_bytes);
    assert(spec_u64_to_le_bytes(spec_u64_from_le_bytes(time_bytes)) == time_bytes);
    assert(leaf_bytes(leaf) =~= bytes);
}

fn append_bytes(out: &mut Vec<u8>, src: &[u8])
    ensures
        final(out)@ == old(out)@ + src@,
{
    let mut i: usize = 0;
    while i < src.len()
        invariant
            i <= src@.len(),
            out@ == old(out)@ + src@.subrange(0, i as int),
        decreases src@.len() - i,
    {
        out.push(src[i]);
        assert(src@.subrange(0, i + 1) =~= src@.subrange(0, i as int).push(src@[i as int]));
        i += 1;
    }
    assert(src@.subrange(0, i as int) =~= src@);
}

fn key_from_slice(src: &[u8]) -> (key: [u8; 32])
    requires
        src@.len() == 32,
    ensures
        key@ == src@,
{
    let mut key = [0u8; 32];
    let mut i: usize = 0;
    while i < 32
        invariant
            i <= 32,
            src@.len() == 32,
            forall|j: int| 0 <= j < i ==> key@[j] == src@[j],
        decreases 32 - i,
    {
        key[i] = src[i];
        i += 1;
    }
    assert(key@ =~= src@);
    key
}

/// Writes out the bytes of the leaf with the given fields.
pub fn encode_leaf(
    ciphertext: &[u8],
    signature: &[u8],
    amount: u64,
    timestamp: i64,
    depositor: &Pubkey,
) -> (bytes: Vec<u8>)
    ensures
        bytes@ == leaf_bytes(
            (CompressedLeafView {
                ciphertext: ciphertext@,
                signature: signature@,
                amount,
                timestamp,
                depositor: depositor.bytes@,
            }),
        ),
{
    let mut bytes: Vec<u8> = Vec::new();
    append_bytes(&mut bytes, ciphertext);
    append_bytes(&mut bytes, signature);
    let amount_bytes = u64_to_le_bytes(amount);
    append_bytes(&mut bytes, amount_bytes.as_slice());
    let time_bytes = u64_to_le_bytes(timestamp as u64);
    append_bytes(&mut bytes, time_bytes.as_slice());
    append_bytes(&mut bytes, depositor.bytes.as_slice());
    assert(bytes@ =~= ciphertext@ + signature@ + spec_u64_to_le_bytes(amount)
        + spec_u64_to_le_bytes(timestamp as u64) + depositor.bytes@);
    bytes
}

/// Reads a leaf back from its bytes. Returns `None` exactly when the bytes can
/// be no leaf: fewer than the fixed fields take, or more than they take
/// together with the longest ciphertext.
pub fn decode_leaf(bytes: &[u8]) -> (leaf: Option<CompressedLeaf>)
    ensures
        leaf is Some <==> parse_leaf(bytes@) is Some,
        leaf matches Some(decoded) ==> parse_leaf(bytes@) == Some(decoded@),
{
    let len = bytes.len();
    if len < LEAF_TRAILER_LEN || len > MAX_NOTE_LEN + LEAF_TRAILER_LEN {
        return None;
    }
    let n = len - LEAF_TRAILER_LEN;
    let ciphertext = slice_to_vec(slice_subrange(bytes, 0, n));
    let signature = slice_to_vec(slice_subrange(bytes, n, n + 64));
    let amount = u64_from_le_bytes(slice_subrange(bytes, n + 64, n + 72));
    let time = u64_from_le_bytes(slice_subrange(bytes, n + 72, n + 80));
    let depositor = Pubkey { bytes: key_from_slice(slice_subrange(bytes, n + 80, n + 112)) };
    Some(CompressedLeaf { ciphertext, signature, amount, timestamp: time as i64, depositor })
}

} // verus!
