//! Commitments to packets.

use sha2::Digest;
use vstd::prelude::*;
use crate::types::{Height, Packet, PacketView};

verus! {

/// The SHA-256 digest of a byte string.
pub uninterp spec fn sha256(data: Seq<u8>) -> Seq<u8>;

/// Calls `sha2::Sha256::digest`. The digest depends on the data alone; the
/// contract names it and states its length, thirty-two bytes.
#[verifier::external_body]
pub(crate) fn sha256_digest(data: &[u8]) -> (digest: Vec<u8>)
    ensures
        digest@ == sha256(data@),
        digest@.len() == 32,
{
    sha2::Sha256::digest(data).to_vec()
}

/// The eight bytes of a number, most significant first.
pub open spec fn big_endian(x: u64) -> Seq<u8> {
    seq![
        (x / 0x100_0000_0000_0000) as u8,
        ((x / 0x1_0000_0000_0000) % 256) as u8,
        ((x / 0x100_0000_0000) % 256) as u8,
        ((x / 0x1_0000_0000) % 256) as u8,
        ((x / 0x100_0000) % 256) as u8,
        ((x / 0x1_0000) % 256) as u8,
        ((x / 0x100) % 256) as u8,
        (x % 256) as u8,
    ]
}

/// What a packet commitment is the digest of: the timeout timestamp, the
/// revision number and the revision height of the timeout height, each in
/// eight bytes, then the digest of the data.
pub open spec fn commitment_preimage(
    timeout_timestamp: u64,
    timeout_height: Height,
    data_digest: Seq<u8>,
) -> Seq<u8> {
    big_endian(timeout_timestamp) + big_endian(timeout_height.revision_number) + big_endian(
        timeout_height.revision_height,
    ) + data_digest
}

/// The commitment that the sending chain records for a packet.
pub open spec fn packet_commitment(packet: PacketView) -> Seq<u8> {
    sha256(
        commitment_preimage(
            packet.timeout_timestamp_on_b,
            packet.timeout_height_on_b,
            sha256(packet.data),
        ),
    )
}

fn push_big_endian(bytes: &mut Vec<u8>, x: u64)
    ensures
        final(bytes)@ == old(bytes)@ + big_endian(x),
{
    bytes.push((x / 0x100_0000_0000_0000) as u8);
    bytes.push(((x / 0x1_0000_0000_0000) % 256) as u8);
    bytes.push(((x / 0x100_0000_0000) % 256) as u8);
    bytes.push(((x / 0x1_0000_0000) % 256) as u8);
    bytes.push(((x / 0x100_0000) % 256) as u8);
    bytes.push(((x / 0x1_0000) % 256) as u8);
    bytes.push(((x / 0x100) % 256) as u8);
    bytes.push((x % 256) as u8);
    assert(bytes@ =~= old(bytes)@ + big_endian(x));
}

/// Lays out what a packet commitment is the digest of, given the digest of
/// the packet's data.
pub fn build_commitment_preimage(
    timeout_timestamp: u64,
    timeout_height: Height,
    data_digest: &Vec<u8>,
) -> (preimage: Vec<u8>)
    ensures
        preimage@ == commitment_preimage(timeout_timestamp, timeout_height, data_digest@),
{
    let mut preimage: Vec<u8> = Vec::new();
    push_big_endian(&mut preimage, timeout_timestamp);
    push_big_endian(&mut preimage, timeout_height.revision_number);
    push_big_endian(&mut preimage, timeout_height.revision_height);
    let mut digest = data_digest.clone();
    preimage.append(&mut digest);
    assert(preimage@ =~= commitment_preimage(timeout_timestamp, timeout_height, data_digest@));
    preimage
}

/// Computes the commitment to a packet.
pub fn commit_packet(packet: &Packet) -> (commitment: Vec<u8>)
    ensures
        commitment@ == packet_commitment(packet@),
        commitment@.len() == 32,
{
    let data_digest = sha256_digest(packet.data.as_slice());
    let preimage = build_commitment_preimage(
        packet.timeout_timestamp_on_b,
        packet.timeout_height_on_b,
        &data_digest,
    );
    sha256_digest(preimage.as_slice())
}

/// Tells whether two byte strings are the same.
pub fn same_bytes(a: &Vec<u8>, b: &Vec<u8>) -> (equal: bool)
    ensures
        equal == (a@ == b@),
{
    if a.len() != b.len() {
        return false;
    }
    let mut i: usize = 0;
    while i < a.len()
        invariant
            i <= a@.len(),
            a@.len() == b@.len(),
            forall|j: int| 0 <= j < i ==> a@[j] == b@[j],
        decreases a@.len() - i,
    {
        if a[i] != b[i] {
            return false;
        }
        i += 1;
    }
    assert(a@ =~= b@);
    true
}

} // verus!
