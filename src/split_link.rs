//! The link between the two halves: the secondary half serves its key mask as
//! four big-endian bytes; the primary half decodes it, reads a failed transfer
//! as no keys pressed, and merges it with its own mask into one state word.
use vstd::prelude::*;
use crate::key_matrix::mask_bit;
use crate::model::key_bit;

verus! {

/// Bus address of the secondary half.
pub const SECONDARY_ADDRESS: u8 = 0x33;

/// Number of keys of the secondary half; they take the low bits of the state word.
pub const REMOTE_KEY_COUNT: u64 = 21;

/// The value of four bytes read big-endian.
pub open spec fn be_value(b: Seq<u8>) -> int {
    b[0] * 0x100_0000 + b[1] * 0x1_0000 + b[2] * 0x100 + b[3]
}

/// The four big-endian bytes of `x`.
pub open spec fn be_bytes(x: u32) -> Seq<u8> {
    seq![
        (x / 0x100_0000) as u8,
        ((x / 0x1_0000) % 0x100) as u8,
        ((x / 0x100) % 0x100) as u8,
        (x % 0x100) as u8,
    ]
}

/// The mask of the secondary half from the result of a bus read: the decoded
/// payload, or no keys pressed when the transfer failed.
pub open spec fn spec_remote_mask(payload: Option<[u8; 4]>) -> u32 {
    match payload {
        Some(b) => be_value(b@) as u32,
        None => 0,
    }
}

/// The combined state word: the secondary half's keys in the low bits, the
/// primary half's own keys above them.
pub open spec fn spec_combine(local: u32, remote: u32) -> u64 {
    (remote as u64) | ((local as u64) << REMOTE_KEY_COUNT)
}

/// The payload that the secondary half answers a read with.
pub fn encode_mask(mask: u32) -> (r: [u8; 4])
    ensures
        r@ == be_bytes(mask),
{
    let b0 = (mask >> 24u32) as u8;
    let b1 = ((mask >> 16u32) & 0xff) as u8;
    let b2 = ((mask >> 8u32) & 0xff) as u8;
    let b3 = (mask & 0xff) as u8;
    assert(mask >> 24u32 == mask / 0x100_0000) by (bit_vector);
    assert((mask >> 16u32) & 0xff == (mask / 0x1_0000) % 0x100) by (bit_vector);
    assert((mask >> 8u32) & 0xff == (mask / 0x100) % 0x100) by (bit_vector);
    assert(mask & 0xff == mask % 0x100) by (bit_vector);
    let r = [b0, b1, b2, b3];
    assert(r@ =~= be_bytes(mask));
    r
}

/// The key mask in a payload of four big-endian bytes.
pub fn decode_mask(payload: [u8; 4]) -> (r: u32)
    ensures
        r == be_value(payload@),
{
    let b0 = payload[0];
    let b1 = payload[1];
    let b2 = payload[2];
    let b3 = payload[3];
    let r = ((b0 as u32) << 24u32) | ((b1 as u32) << 16u32) | ((b2 as u32) << 8u32) | (b3 as u32);
    assert(((b0 as u32) << 24u32) | ((b1 as u32) << 16u32) | ((b2 as u32) << 8u32) | (b3 as u32)
        == b0 * 0x100_0000 + b1 * 0x1_0000 + b2 * 0x100 + b3) by (bit_vector);
    r
}

/// The mask of the secondary half from the result of a bus read (`None` for a
/// failed transfer, which reads as no keys pressed).
pub fn remote_mask(payload: Option<[u8; 4]>) -> (r: u32)
    ensures
        r == spec_remote_mask(payload),
{
    match payload {
        Some(b) => decode_mask(b),
        None => 0,
    }
}

/// Merges the primary half's own mask with the secondary half's into the
/// state word that the engine takes.
pub fn combine_states(local: u32, remote: u32) -> (r: u64)
    ensures
        r == spec_combine(local, remote),
        forall|j: u64| j < REMOTE_KEY_COUNT ==> (key_bit(r, j as int) <==> mask_bit(remote, j as u32)),
        remote < 0x20_0000 ==> forall|j: u64|
            REMOTE_KEY_COUNT <= j < 53 ==> (key_bit(r, j as int) <==> mask_bit(
                local,
                (j - REMOTE_KEY_COUNT) as u32,
            )),
{
    let r = (remote as u64) | ((local as u64) << REMOTE_KEY_COUNT);
    assert forall|j: u64| j < REMOTE_KEY_COUNT implies (key_bit(r, j as int) <==> mask_bit(
        remote,
        j as u32,
    )) by {
        assert(j < 21 ==> ((((remote as u64) | ((local as u64) << 21u64)) >> j) & 1u64 == 1u64
            <==> (remote >> (j as u32)) & 1u32 == 1u32)) by (bit_vector);
    }
    if remote < 0x20_0000 {
        assert forall|j: u64| REMOTE_KEY_COUNT <= j < 53 implies (key_bit(r, j as int)
            <==> mask_bit(local, (j - REMOTE_KEY_COUNT) as u32)) by {
            assert(remote < 0x20_0000 && 21 <= j < 53 ==> ((((remote as u64) | ((local as u64)
                << 21u64)) >> j) & 1u64 == 1u64 <==> (local >> ((j - 21) as u32)) & 1u32 == 1u32))
                by (bit_vector);
        }
    }
    r
}

/// Encoding a mask of the secondary half's keys into its bus payload and
/// decoding that payload gives the mask back, with every bit above the
/// secondary half's keys clear.
pub proof fn lemma_round_trip(mask: u32)
    requires
        mask < 0x20_0000,
    ensures
        be_value(be_bytes(mask)) == mask,
        forall|j: u32| REMOTE_KEY_COUNT <= j < 32 ==> !#[trigger] mask_bit(be_value(be_bytes(mask)) as u32, j),
{
    let v = be_value(be_bytes(mask));
    assert(mask / 0x100_0000 * 0x100_0000 + (mask / 0x1_0000) % 0x100 * 0x1_0000 + (mask / 0x100)
        % 0x100 * 0x100 + mask % 0x100 == mask) by (bit_vector);
    assert(be_value(be_bytes(mask)) == mask / 0x100_0000 * 0x100_0000 + (mask / 0x1_0000) % 0x100
        * 0x1_0000 + (mask / 0x100) % 0x100 * 0x100 + mask % 0x100);
    assert forall|j: u32| REMOTE_KEY_COUNT <= j < 32 implies !mask_bit(mask, j) by {
        assert(mask < 0x20_0000 && 21 <= j < 32 ==> (mask >> j) & 1u32 != 1u32) by (bit_vector);
    }
}

/// A failed bus read yields a state word in which every key of the secondary
/// half reads as released, whatever the primary half's mask.
pub proof fn lemma_bus_failure(local: u32)
    ensures
        forall|j: u64|
            j < REMOTE_KEY_COUNT ==> !key_bit(spec_combine(local, spec_remote_mask(None)), j as int),
{
    assert forall|j: u64| j < REMOTE_KEY_COUNT implies !key_bit(
        spec_combine(local, spec_remote_mask(None)),
        j as int,
    ) by {
        assert(j < 21 ==> (((0u32 as u64) | ((local as u64) << 21u64)) >> j) & 1u64 != 1u64)
            by (bit_vector);
    }
}

} // verus!
