//! Binary instruction payloads of the two external entry points.
//!
//! A payload is an 8-byte discriminator identifying the entry point,
//! followed by each parameter in declared order: fixed-width integers
//! little-endian, addresses as raw 32-byte arrays, and the one
//! variable-length buffer with a 4-byte little-endian length prefix. The
//! layout is bit-exact: the external program accepts nothing else.

use vstd::prelude::*;
use vstd::bytes::{
    lemma_auto_spec_u32_to_from_le_bytes, lemma_auto_spec_u64_to_from_le_bytes,
    spec_u32_from_le_bytes, spec_u32_to_le_bytes, spec_u64_from_le_bytes, spec_u64_to_le_bytes,
    u32_from_le_bytes, u32_to_le_bytes, u64_from_le_bytes, u64_to_le_bytes,
};
use vstd::slice::{slice_subrange, slice_to_vec};

verus! {

broadcast use vstd::array::group_array_axioms;

/// The 8-byte discriminator of the `deposit_for_burn` entry point: the
/// leading bytes of the SHA-256 digest of its global instruction name.
pub const DEPOSIT_FOR_BURN_DISCRIMINATOR: [u8; 8] = [215, 60, 61, 46, 114, 55, 128, 176];

/// The 8-byte discriminator of the `send_message` entry point: the leading
/// bytes of the SHA-256 digest of its global instruction name.
pub const SEND_MESSAGE_DISCRIMINATOR: [u8; 8] = [57, 40, 34, 178, 189, 10, 65, 26];

/// The fixed byte length of a `deposit_for_burn` payload:
/// 8 discriminator + 8 amount + 4 domain + 32 + 32 addresses + 8 max fee +
/// 4 finality threshold.
pub const DEPOSIT_FOR_BURN_PAYLOAD_LEN: usize = 96;

/// The byte length of a `send_message` payload before its body:
/// 8 discriminator + 4 domain + 32 + 32 addresses + 4 finality threshold +
/// 4 body length prefix.
pub const SEND_MESSAGE_HEADER_LEN: usize = 84;

/// The parameters of a `deposit_for_burn` instruction: the intent to
/// register a burn on the source chain for a later mint on a destination
/// domain. No invariant is enforced locally beyond field presence —
/// validation is the external program's.
#[derive(Clone, Copy, Debug, PartialEq, Eq)]
pub struct DepositForBurnParams {
    /// Units to burn on the source chain.
    pub amount: u64,
    /// Numeric identifier of the destination chain.
    pub destination_domain: u32,
    /// Address receiving the minted units on the destination chain.
    pub mint_recipient: [u8; 32],
    /// Address allowed to trigger the destination-side processing.
    pub destination_caller: [u8; 32],
    /// Most the caller will pay the protocol for the transfer.
    pub max_fee: u64,
    /// Confirmations required before the message is considered final.
    pub min_finality_threshold: u32,
}

/// The mathematical value of [`DepositForBurnParams`], addresses as byte
/// sequences.
#[verifier::ext_equal]
pub ghost struct DepositForBurnParamsV {
    pub amount: u64,
    pub destination_domain: u32,
    pub mint_recipient: Seq<u8>,
    pub destination_caller: Seq<u8>,
    pub max_fee: u64,
    pub min_finality_threshold: u32,
}

impl DepositForBurnParamsV {
    /// Both addresses are exactly 32 bytes.
    pub open spec fn wf(self) -> bool {
        self.mint_recipient.len() == 32 && self.destination_caller.len() == 32
    }
}

impl View for DepositForBurnParams {
    type V = DepositForBurnParamsV;

    open spec fn view(&self) -> DepositForBurnParamsV {
        DepositForBurnParamsV {
            amount: self.amount,
            destination_domain: self.destination_domain,
            mint_recipient: self.mint_recipient@,
            destination_caller: self.destination_caller@,
            max_fee: self.max_fee,
            min_finality_threshold: self.min_finality_threshold,
        }
    }
}

/// The parameters of a `send_message` instruction: a raw message body for
/// the companion relay entry point.
#[derive(Clone, Debug, PartialEq, Eq)]
pub struct SendMessageParams {
    /// Numeric identifier of the destination chain.
    pub destination_domain: u32,
    /// Address receiving the message on the destination chain.
    pub recipient: [u8; 32],
    /// Address allowed to trigger the destination-side processing.
    pub destination_caller: [u8; 32],
    /// Confirmations required before the message is considered final.
    pub min_finality_threshold: u32,
    /// The raw message body, length-prefixed on the wire.
    pub message_body: Vec<u8>,
}

/// The mathematical value of [`SendMessageParams`], addresses and body as
/// byte sequences.
#[verifier::ext_equal]
pub ghost struct SendMessageParamsV {
    pub destination_domain: u32,
    pub recipient: Seq<u8>,
    pub destination_caller: Seq<u8>,
    pub min_finality_threshold: u32,
    pub message_body: Seq<u8>,
}

impl SendMessageParamsV {
    /// Both addresses are exactly 32 bytes and the body length fits its
    /// 4-byte prefix.
    pub open spec fn wf(self) -> bool {
        &&& self.recipient.len() == 32
        &&& self.destination_caller.len() == 32
        &&& self.message_body.len() <= u32::MAX
    }
}

impl View for SendMessageParams {
    type V = SendMessageParamsV;

    open spec fn view(&self) -> SendMessageParamsV {
        SendMessageParamsV {
            destination_domain: self.destination_domain,
            recipient: self.recipient@,
            destination_caller: self.destination_caller@,
            min_finality_threshold: self.min_finality_threshold,
            message_body: self.message_body@,
        }
    }
}

/// The exact bytes of a `deposit_for_burn` payload: discriminator, then
/// every field in declared order, integers little-endian.
pub open spec fn spec_encode_deposit_for_burn(p: DepositForBurnParamsV) -> Seq<u8> {
    DEPOSIT_FOR_BURN_DISCRIMINATOR@ + spec_u64_to_le_bytes(p.amount)
        + spec_u32_to_le_bytes(p.destination_domain) + p.mint_recipient + p.destination_caller
        + spec_u64_to_le_bytes(p.max_fee) + spec_u32_to_le_bytes(p.min_finality_threshold)
}

/// The parameters a well-formed `deposit_for_burn` payload carries, or
/// `None` when the length or the discriminator is wrong.
pub open spec fn spec_decode_deposit_for_burn(s: Seq<u8>) -> Option<DepositForBurnParamsV> {
    if s.len() == DEPOSIT_FOR_BURN_PAYLOAD_LEN
        && s.subrange(0, 8) == DEPOSIT_FOR_BURN_DISCRIMINATOR@ {
        Some(DepositForBurnParamsV {
            amount: spec_u64_from_le_bytes(s.subrange(8, 16)),
            destination_domain: spec_u32_from_le_bytes(s.subrange(16, 20)),
            mint_recipient: s.subrange(20, 52),
            destination_caller: s.subrange(52, 84),
            max_fee: spec_u64_from_le_bytes(s.subrange(84, 92)),
            min_finality_threshold: spec_u32_from_le_bytes(s.subrange(92, 96)),
        })
    } else {
        None
    }
}

/// The exact bytes of a `send_message` payload: discriminator, the fixed
/// fields in declared order, then the body behind its 4-byte little-endian
/// length prefix.
pub open spec fn spec_encode_send_message(p: SendMessageParamsV) -> Seq<u8>
    recommends
        p.wf(),
{
    SEND_MESSAGE_DISCRIMINATOR@ + spec_u32_to_le_bytes(p.destination_domain) + p.recipient
        + p.destination_caller + spec_u32_to_le_bytes(p.min_finality_threshold)
        + spec_u32_to_le_bytes(p.message_body.len() as u32) + p.message_body
}

/// The parameters a well-formed `send_message` payload carries, or `None`
/// when the length, the discriminator or the body length prefix is wrong.
pub open spec fn spec_decode_send_message(s: Seq<u8>) -> Option<SendMessageParamsV> {
    if s.len() >= SEND_MESSAGE_HEADER_LEN && s.subrange(0, 8) == SEND_MESSAGE_DISCRIMINATOR@
        && spec_u32_from_le_bytes(s.subrange(80, 84)) == s.len() - SEND_MESSAGE_HEADER_LEN {
        Some(SendMessageParamsV {
            destination_domain: spec_u32_from_le_bytes(s.subrange(8, 12)),
            recipient: s.subrange(12, 44),
            destination_caller: s.subrange(44, 76),
            min_finality_threshold: spec_u32_from_le_bytes(s.subrange(76, 80)),
            message_body: s.subrange(84, s.len() as int),
        })
    } else {
        None
    }
}

/// Encode a `deposit_for_burn` payload, byte for byte.
pub fn encode_deposit_for_burn(p: &DepositForBurnParams) -> (r: Vec<u8>)
    ensures
        r@ == spec_encode_deposit_for_burn(p@),
        r@.len() == DEPOSIT_FOR_BURN_PAYLOAD_LEN,
{
    proof {
        lemma_auto_spec_u64_to_from_le_bytes();
        lemma_auto_spec_u32_to_from_le_bytes();
    }
    let mut out: Vec<u8> = slice_to_vec(DEPOSIT_FOR_BURN_DISCRIMINATOR.as_slice());
    let mut piece = u64_to_le_bytes(p.amount);
    out.append(&mut piece);
    let mut piece = u32_to_le_bytes(p.destination_domain);
    out.append(&mut piece);
    let mut piece = slice_to_vec(p.mint_recipient.as_slice());
    out.append(&mut piece);
    let mut piece = slice_to_vec(p.destination_caller.as_slice());
    out.append(&mut piece);
    let mut piece = u64_to_le_bytes(p.max_fee);
    out.append(&mut piece);
    let mut piece = u32_to_le_bytes(p.min_finality_threshold);
    out.append(&mut piece);
    proof {
        assert(out@ =~= spec_encode_deposit_for_burn(p@));
    }
    out
}

/// Encode a `send_message` payload, byte for byte. The body must fit its
/// 4-byte length prefix.
pub fn encode_send_message(p: &SendMessageParams) -> (r: Vec<u8>)
    requires
        p.message_body@.len() <= u32::MAX,
    ensures
        r@ == spec_encode_send_message(p@),
        r@.len() == SEND_MESSAGE_HEADER_LEN + p.message_body@.len(),
{
    proof {
        lemma_auto_spec_u32_to_from_le_bytes();
    }
    let mut out: Vec<u8> = slice_to_vec(SEND_MESSAGE_DISCRIMINATOR.as_slice());
    let mut piece = u32_to_le_bytes(p.destination_domain);
    out.append(&mut piece);
    let mut piece = slice_to_vec(p.recipient.as_slice());
    out.append(&mut piece);
    let mut piece = slice_to_vec(p.destination_caller.as_slice());
    out.append(&mut piece);
    let mut piece = u32_to_le_bytes(p.min_finality_threshold);
    out.append(&mut piece);
    let body_len: u32 = p.message_body.len() as u32;
    let mut piece = u32_to_le_bytes(body_len);
    out.append(&mut piece);
    let mut piece = slice_to_vec(p.message_body.as_slice());
    out.append(&mut piece);
    proof {
        assert(out@ =~= spec_encode_send_message(p@));
    }
    out
}

/// Whether the first eight bytes of `data` are exactly `disc`.
fn discriminator_matches(data: &[u8], disc: &[u8; 8]) -> (r: bool)
    requires
        data@.len() >= 8,
    ensures
        r == (data@.subrange(0, 8) == disc@),
{
    let mut i: usize = 0;
    while i < 8
        invariant
            0 <= i <= 8,
            data@.len() >= 8,
            forall|j: int| 0 <= j < i ==> data@[j] == disc@[j],
        decreases 8 - i,
    {
        if data[i] != disc[i] {
            proof {
                assert(data@.subrange(0, 8)[i as int] != disc@[i as int]);
            }
            return false;
        }
        i = i + 1;
    }
    proof {
        assert(data@.subrange(0, 8) =~= disc@);
    }
    true
}

/// Copy the 32 bytes of `data` at `offset` into a fixed-size address array.
fn read_bytes32(data: &[u8], offset: usize) -> (r: [u8; 32])
    requires
        offset + 32 <= data@.len(),
    ensures
        r@ == data@.subrange(offset as int, offset + 32),
{
    let n = data.len();
    let mut out: [u8; 32] = [0u8; 32];
    let mut i: usize = 0;
    while i < 32
        invariant
            0 <= i <= 32,
            offset + 32 <= n,
            n == data@.len(),
            out@.len() == 32,
            forall|j: int| 0 <= j < i ==> out@[j] == data@[offset + j],
        decreases 32 - i,
    {
        out[i] = data[offset + i];
        i = i + 1;
    }
    proof {
        assert(out@ =~= data@.subrange(offset as int, offset + 32));
    }
    out
}

/// Decode a `deposit_for_burn` payload, recovering exactly the fields that
/// [`encode_deposit_for_burn`] laid down, or `None` on a wrong length or
/// discriminator.
pub fn decode_deposit_for_burn(data: &[u8]) -> (r: Option<DepositForBurnParams>)
    ensures
        match r {
            Some(p) => spec_decode_deposit_for_burn(data@) == Some(p@),
            None => spec_decode_deposit_for_burn(data@) is None,
        },
{
    if data.len() != DEPOSIT_FOR_BURN_PAYLOAD_LEN {
        return None;
    }
    if !discriminator_matches(data, &DEPOSIT_FOR_BURN_DISCRIMINATOR) {
        return None;
    }
    let p = DepositForBurnParams {
        amount: u64_from_le_bytes(slice_subrange(data, 8, 16)),
        destination_domain: u32_from_le_bytes(slice_subrange(data, 16, 20)),
        mint_recipient: read_bytes32(data, 20),
        destination_caller: read_bytes32(data, 52),
        max_fee: u64_from_le_bytes(slice_subrange(data, 84, 92)),
        min_finality_threshold: u32_from_le_bytes(slice_subrange(data, 92, 96)),
    };
    proof {
        assert(spec_decode_deposit_for_burn(data@) matches Some(q) && q =~= p@);
    }
    Some(p)
}

/// Decode a `send_message` payload, recovering exactly the fields that
/// [`encode_send_message`] laid down, or `None` on a wrong length,
/// discriminator or body length prefix.
pub fn decode_send_message(data: &[u8]) -> (r: Option<SendMessageParams>)
    ensures
        match r {
            Some(p) => spec_decode_send_message(data@) == Some(p@),
            None => spec_decode_send_message(data@) is None,
        },
{
    if data.len() < SEND_MESSAGE_HEADER_LEN {
        return None;
    }
    if !discriminator_matches(data, &SEND_MESSAGE_DISCRIMINATOR) {
        return None;
    }
    let body_len = u32_from_le_bytes(slice_subrange(data, 80, 84));
    if body_len as usize != data.len() - SEND_MESSAGE_HEADER_LEN {
        return None;
    }
    let p = SendMessageParams {
        destination_domain: u32_from_le_bytes(slice_subrange(data, 8, 12)),
        recipient: read_bytes32(data, 12),
        destination_caller: read_bytes32(data, 44),
        min_finality_threshold: u32_from_le_bytes(slice_subrange(data, 76, 80)),
        message_body: slice_to_vec(slice_subrange(data, 84, data.len())),
    };
    proof {
        assert(spec_decode_send_message(data@) matches Some(q) && q =~= p@);
    }
    Some(p)
}

/// Law: the `deposit_for_burn` payload round-trips — decoding an encoded
/// payload recovers exactly the amount, destination domain, mint recipient,
/// destination caller, max fee and finality threshold supplied.
pub proof fn lemma_deposit_for_burn_round_trip(p: DepositForBurnParamsV)
    requires
        p.wf(),
    ensures
        spec_decode_deposit_for_burn(spec_encode_deposit_for_burn(p)) == Some(p),
{
    lemma_auto_spec_u64_to_from_le_bytes();
    lemma_auto_spec_u32_to_from_le_bytes();
    let s = spec_encode_deposit_for_burn(p);
    assert(s.subrange(0, 8) =~= DEPOSIT_FOR_BURN_DISCRIMINATOR@);
    assert(s.subrange(8, 16) =~= spec_u64_to_le_bytes(p.amount));
    assert(s.subrange(16, 20) =~= spec_u32_to_le_bytes(p.destination_domain));
    assert(s.subrange(20, 52) =~= p.mint_recipient);
    assert(s.subrange(52, 84) =~= p.destination_caller);
    assert(s.subrange(84, 92) =~= spec_u64_to_le_bytes(p.max_fee));
    assert(s.subrange(92, 96) =~= spec_u32_to_le_bytes(p.min_finality_threshold));
    assert(spec_decode_deposit_for_burn(s) matches Some(q) && q =~= p);
}

/// Law: the `send_message` payload round-trips — decoding an encoded
/// payload recovers exactly the fields and the body supplied.
pub proof fn lemma_send_message_round_trip(p: SendMessageParamsV)
    requires
        p.wf(),
    ensures
        spec_decode_send_message(spec_encode_send_message(p)) == Some(p),
{
    lemma_auto_spec_u32_to_from_le_bytes();
    let s = spec_encode_send_message(p);
    assert(s.subrange(0, 8) =~= SEND_MESSAGE_DISCRIMINATOR@);
    assert(s.subrange(8, 12) =~= spec_u32_to_le_bytes(p.destination_domain));
    assert(s.subrange(12, 44) =~= p.recipient);
    assert(s.subrange(44, 76) =~= p.destination_caller);
    assert(s.subrange(76, 80) =~= spec_u32_to_le_bytes(p.min_finality_threshold));
    assert(s.subrange(80, 84) =~= spec_u32_to_le_bytes(p.message_body.len() as u32));
    assert(s.subrange(84, s.len() as int) =~= p.message_body);
    assert(spec_decode_send_message(s) matches Some(q) && q =~= p);
}

} // verus!
