//! Assembly of complete cross-program instructions for the external burn
//! and message entry points.
//!
//! Each builder derives the protocol-derived addresses its entry point
//! requires — in any order, since the derivations are pure and independent —
//! places every account at the position the fixed table prescribes, and
//! encodes the binary parameter payload. The program shell only converts
//! the result into the host platform's instruction value and issues the
//! invocation.

use vstd::prelude::*;
use vstd::bytes::spec_u32_to_le_bytes;

use crate::accounts::{
    deposit_for_burn_account_metas, send_message_account_metas, spec_deposit_for_burn_metas,
    spec_send_message_metas, AccountMeta, DepositForBurnAccountKeys, DepositForBurnAccountKeysV,
    EventAccounts, SendMessageAccountKeys, SendMessageAccountKeysV,
};
use crate::codec::{
    encode_deposit_for_burn, encode_send_message, spec_encode_deposit_for_burn,
    spec_encode_send_message, DepositForBurnParams, SendMessageParams,
};
use crate::error::ErrorCode;
use crate::pda::{
    derive_local_token_pda, derive_message_transmitter_pda, derive_remote_token_messenger_pda,
    derive_sender_authority_pda, derive_token_messenger_pda, derive_token_minter_pda, pda_of,
    LOCAL_TOKEN_SEED, MESSAGE_TRANSMITTER_SEED, REMOTE_TOKEN_MESSENGER_SEED,
    SENDER_AUTHORITY_SEED, TOKEN_MESSENGER_SEED, TOKEN_MINTER_SEED,
};

verus! {

/// A fully assembled cross-program instruction: the target program, the
/// ordered account list, and the binary payload. The account order is part
/// of the target's ABI.
#[derive(Clone, Debug, PartialEq, Eq)]
pub struct CrossProgramInstruction {
    /// The program the instruction targets.
    pub program_id: [u8; 32],
    /// The ordered account list, with signer/writable flags.
    pub accounts: Vec<AccountMeta>,
    /// The binary instruction payload.
    pub data: Vec<u8>,
}

/// The accounts a caller supplies for `deposit_for_burn`; the five
/// protocol-derived addresses are not among them — the builder derives
/// those itself.
#[derive(Clone, Copy, Debug, PartialEq, Eq)]
pub struct DepositForBurnAccountBundle {
    /// The token owner authorizing the burn.
    pub owner: [u8; 32],
    /// Pays rent for the message event account.
    pub event_rent_payer: [u8; 32],
    /// The token account whose balance is burned.
    pub burn_token_account: [u8; 32],
    /// The denylist state account checked by the target.
    pub denylist_account: [u8; 32],
    /// The message-transmitter state account.
    pub message_transmitter: [u8; 32],
    /// The mint being burned; also keys the local-token derivation.
    pub burn_token_mint: [u8; 32],
    /// The account receiving the sent-message event data.
    pub message_sent_event_data: [u8; 32],
    /// The message-transmitter program.
    pub message_transmitter_program: [u8; 32],
    /// The fungible-token program.
    pub token_program: [u8; 32],
    /// The system program.
    pub system_program: [u8; 32],
    /// The trailing pair for emit-event-capable targets, or `None`.
    pub event_accounts: Option<EventAccounts>,
}

/// The accounts a caller supplies for `send_message`; the two
/// protocol-derived addresses are not among them — the builder derives
/// those itself.
#[derive(Clone, Copy, Debug, PartialEq, Eq)]
pub struct SendMessageAccountBundle {
    /// Pays rent for the message event account.
    pub event_rent_payer: [u8; 32],
    /// The account receiving the sent-message event data.
    pub message_sent_event_data: [u8; 32],
    /// The program on whose behalf the message is sent.
    pub sender_program: [u8; 32],
    /// The system program.
    pub system_program: [u8; 32],
}

/// Whether every protocol-derived address `deposit_for_burn` requires
/// exists for this target program, mint and destination domain.
pub open spec fn spec_deposit_for_burn_pdas_ok(target: Seq<u8>, mint: Seq<u8>, domain: u32) -> bool {
    &&& pda_of(seq![SENDER_AUTHORITY_SEED@], target) is Some
    &&& pda_of(seq![TOKEN_MESSENGER_SEED@], target) is Some
    &&& pda_of(seq![REMOTE_TOKEN_MESSENGER_SEED@, spec_u32_to_le_bytes(domain)], target) is Some
    &&& pda_of(seq![TOKEN_MINTER_SEED@], target) is Some
    &&& pda_of(seq![LOCAL_TOKEN_SEED@, mint], target) is Some
}

/// The full `deposit_for_burn` account-key table for a caller-supplied
/// bundle: the five derived addresses in their places, the target program
/// standing as the token-messenger-minter program account.
pub open spec fn spec_deposit_for_burn_keys(
    bundle: DepositForBurnAccountBundle,
    target: Seq<u8>,
    domain: u32,
) -> DepositForBurnAccountKeysV
    recommends
        spec_deposit_for_burn_pdas_ok(target, bundle.burn_token_mint@, domain),
{
    DepositForBurnAccountKeysV {
        owner: bundle.owner@,
        event_rent_payer: bundle.event_rent_payer@,
        sender_authority_pda: pda_of(seq![SENDER_AUTHORITY_SEED@], target).unwrap().0,
        burn_token_account: bundle.burn_token_account@,
        denylist_account: bundle.denylist_account@,
        message_transmitter: bundle.message_transmitter@,
        token_messenger: pda_of(seq![TOKEN_MESSENGER_SEED@], target).unwrap().0,
        remote_token_messenger: pda_of(
            seq![REMOTE_TOKEN_MESSENGER_SEED@, spec_u32_to_le_bytes(domain)],
            target,
        ).unwrap().0,
        token_minter: pda_of(seq![TOKEN_MINTER_SEED@], target).unwrap().0,
        local_token: pda_of(seq![LOCAL_TOKEN_SEED@, bundle.burn_token_mint@], target).unwrap().0,
        burn_token_mint: bundle.burn_token_mint@,
        message_sent_event_data: bundle.message_sent_event_data@,
        message_transmitter_program: bundle.message_transmitter_program@,
        token_messenger_minter_program: target,
        token_program: bundle.token_program@,
        system_program: bundle.system_program@,
        event_accounts: match bundle.event_accounts {
            Some(e) => Some(e@),
            None => None,
        },
    }
}

/// Whether every protocol-derived address `send_message` requires exists
/// for this target program.
pub open spec fn spec_send_message_pdas_ok(target: Seq<u8>) -> bool {
    &&& pda_of(seq![SENDER_AUTHORITY_SEED@], target) is Some
    &&& pda_of(seq![MESSAGE_TRANSMITTER_SEED@], target) is Some
}

/// The full `send_message` account-key table for a caller-supplied bundle:
/// the two derived addresses in their places.
pub open spec fn spec_send_message_keys(
    bundle: SendMessageAccountBundle,
    target: Seq<u8>,
) -> SendMessageAccountKeysV
    recommends
        spec_send_message_pdas_ok(target),
{
    SendMessageAccountKeysV {
        event_rent_payer: bundle.event_rent_payer@,
        sender_authority_pda: pda_of(seq![SENDER_AUTHORITY_SEED@], target).unwrap().0,
        message_transmitter: pda_of(seq![MESSAGE_TRANSMITTER_SEED@], target).unwrap().0,
        message_sent_event_data: bundle.message_sent_event_data@,
        sender_program: bundle.sender_program@,
        system_program: bundle.system_program@,
    }
}

/// Initiate a cross-chain transfer: build the complete `deposit_for_burn`
/// instruction for the target program — the five protocol-derived
/// addresses, the fixed account order, and the bit-exact payload.
///
/// Fails only when a derivation finds no address, the fatal configuration
/// case that is never expected with these fixed seeds; the external
/// program's own validation happens when the shell invokes the result.
pub fn deposit_for_burn_cctp(
    params: &DepositForBurnParams,
    bundle: &DepositForBurnAccountBundle,
    target_program_id: &[u8; 32],
) -> (r: Result<CrossProgramInstruction, ErrorCode>)
    ensures
        r is Ok <==> spec_deposit_for_burn_pdas_ok(
            target_program_id@,
            bundle.burn_token_mint@,
            params.destination_domain,
        ),
        r matches Ok(ix) ==> {
            &&& ix.program_id == *target_program_id
            &&& ix.accounts.deep_view() == spec_deposit_for_burn_metas(
                spec_deposit_for_burn_keys(*bundle, target_program_id@, params.destination_domain),
            )
            &&& ix.data@ == spec_encode_deposit_for_burn(params@)
        },
        r matches Err(e) ==> e == ErrorCode::CctpTransferFailed,
{
    let sender_authority_pda = match derive_sender_authority_pda(target_program_id, 0) {
        Some(p) => p.0,
        None => {
            return Err(ErrorCode::CctpTransferFailed);
        },
    };
    let token_messenger = match derive_token_messenger_pda(target_program_id) {
        Some(p) => p.0,
        None => {
            return Err(ErrorCode::CctpTransferFailed);
        },
    };
    let remote_token_messenger = match derive_remote_token_messenger_pda(
        target_program_id,
        params.destination_domain,
    ) {
        Some(p) => p.0,
        None => {
            return Err(ErrorCode::CctpTransferFailed);
        },
    };
    let token_minter = match derive_token_minter_pda(target_program_id) {
        Some(p) => p.0,
        None => {
            return Err(ErrorCode::CctpTransferFailed);
        },
    };
    let local_token = match derive_local_token_pda(target_program_id, &bundle.burn_token_mint) {
        Some(p) => p.0,
        None => {
            return Err(ErrorCode::CctpTransferFailed);
        },
    };
    let keys = DepositForBurnAccountKeys {
        owner: bundle.owner,
        event_rent_payer: bundle.event_rent_payer,
        sender_authority_pda,
        burn_token_account: bundle.burn_token_account,
        denylist_account: bundle.denylist_account,
        message_transmitter: bundle.message_transmitter,
        token_messenger,
        remote_token_messenger,
        token_minter,
        local_token,
        burn_token_mint: bundle.burn_token_mint,
        message_sent_event_data: bundle.message_sent_event_data,
        message_transmitter_program: bundle.message_transmitter_program,
        token_messenger_minter_program: *target_program_id,
        token_program: bundle.token_program,
        system_program: bundle.system_program,
        event_accounts: bundle.event_accounts,
    };
    proof {
        assert(keys@ =~~= spec_deposit_for_burn_keys(
            *bundle,
            target_program_id@,
            params.destination_domain,
        ));
    }
    Ok(CrossProgramInstruction {
        program_id: *target_program_id,
        accounts: deposit_for_burn_account_metas(&keys),
        data: encode_deposit_for_burn(params),
    })
}

/// Build the complete `send_message` instruction for the companion relay
/// entry point: the two protocol-derived addresses, the fixed account
/// order, and the bit-exact payload. The body must fit its 4-byte length
/// prefix.
///
/// Fails only when a derivation finds no address, the fatal configuration
/// case that is never expected with these fixed seeds.
pub fn send_message(
    params: &SendMessageParams,
    bundle: &SendMessageAccountBundle,
    target_program_id: &[u8; 32],
) -> (r: Result<CrossProgramInstruction, ErrorCode>)
    requires
        params.message_body@.len() <= u32::MAX,
    ensures
        r is Ok <==> spec_send_message_pdas_ok(target_program_id@),
        r matches Ok(ix) ==> {
            &&& ix.program_id == *target_program_id
            &&& ix.accounts.deep_view() == spec_send_message_metas(
                spec_send_message_keys(*bundle, target_program_id@),
            )
            &&& ix.data@ == spec_encode_send_message(params@)
        },
        r matches Err(e) ==> e == ErrorCode::CctpTransferFailed,
{
    let sender_authority_pda = match derive_sender_authority_pda(target_program_id, 0) {
        Some(p) => p.0,
        None => {
            return Err(ErrorCode::CctpTransferFailed);
        },
    };
    let message_transmitter = match derive_message_transmitter_pda(target_program_id) {
        Some(p) => p.0,
        None => {
            return Err(ErrorCode::CctpTransferFailed);
        },
    };
    let keys = SendMessageAccountKeys {
        event_rent_payer: bundle.event_rent_payer,
        sender_authority_pda,
        message_transmitter,
        message_sent_event_data: bundle.message_sent_event_data,
        sender_program: bundle.sender_program,
        system_program: bundle.system_program,
    };
    proof {
        assert(keys@ =~~= spec_send_message_keys(*bundle, target_program_id@));
    }
    Ok(CrossProgramInstruction {
        program_id: *target_program_id,
        accounts: send_message_account_metas(&keys),
        data: encode_send_message(params),
    })
}

} // verus!
