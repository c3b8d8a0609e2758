//! The ordered account lists of the two external entry points.
//!
//! The order of each list, and every account's signer/writable flags, are a
//! fixed external contract: the external program validates positions and
//! flags strictly, so reordering breaks the call even when every address is
//! correct. Each list has one spec table as its single source of truth, and
//! the executable builders reproduce the table exactly.

use vstd::prelude::*;

verus! {

/// One entry of a cross-program instruction's account list. Signer and
/// writable flags are attributes of the account's role in the entry point,
/// not of the caller's intent.
#[derive(Clone, Copy, Debug, PartialEq, Eq)]
pub struct AccountMeta {
    /// The account's 32-byte address.
    pub address: [u8; 32],
    /// Whether the entry point requires this account to sign.
    pub is_signer: bool,
    /// Whether the entry point may mutate this account.
    pub is_writable: bool,
}

/// The mathematical value of an [`AccountMeta`], the address as a byte
/// sequence.
#[verifier::ext_equal]
pub ghost struct AccountMetaV {
    pub address: Seq<u8>,
    pub is_signer: bool,
    pub is_writable: bool,
}

impl View for AccountMeta {
    type V = AccountMetaV;

    open spec fn view(&self) -> AccountMetaV {
        AccountMetaV {
            address: self.address@,
            is_signer: self.is_signer,
            is_writable: self.is_writable,
        }
    }
}

impl DeepView for AccountMeta {
    type V = AccountMetaV;

    open spec fn deep_view(&self) -> AccountMetaV {
        self.view()
    }
}

/// Shorthand for one account-list entry in the spec tables.
pub open spec fn meta(address: Seq<u8>, is_signer: bool, is_writable: bool) -> AccountMetaV {
    AccountMetaV { address, is_signer, is_writable }
}

/// The optional trailing account pair that only emit-event-capable variants
/// of the target program require.
#[derive(Clone, Copy, Debug, PartialEq, Eq)]
pub struct EventAccounts {
    /// The target program's event authority PDA.
    pub event_authority: [u8; 32],
    /// The target program's own address.
    pub program: [u8; 32],
}

/// The mathematical value of an [`EventAccounts`], addresses as byte
/// sequences.
#[verifier::ext_equal]
pub ghost struct EventAccountsV {
    pub event_authority: Seq<u8>,
    pub program: Seq<u8>,
}

impl View for EventAccounts {
    type V = EventAccountsV;

    open spec fn view(&self) -> EventAccountsV {
        EventAccountsV { event_authority: self.event_authority@, program: self.program@ }
    }
}

/// Every account address the `deposit_for_burn` entry point consumes, in
/// its fixed order.
#[derive(Clone, Copy, Debug, PartialEq, Eq)]
pub struct DepositForBurnAccountKeys {
    /// The token owner authorizing the burn (signer, writable).
    pub owner: [u8; 32],
    /// Pays rent for the message event account (signer, writable).
    pub event_rent_payer: [u8; 32],
    /// The target program's sender-authority PDA (readonly).
    pub sender_authority_pda: [u8; 32],
    /// The token account whose balance is burned (writable).
    pub burn_token_account: [u8; 32],
    /// The denylist state account checked by the target (readonly).
    pub denylist_account: [u8; 32],
    /// The message-transmitter state account (writable).
    pub message_transmitter: [u8; 32],
    /// The token-messenger state PDA (readonly).
    pub token_messenger: [u8; 32],
    /// The remote-token-messenger state PDA for the destination domain
    /// (readonly).
    pub remote_token_messenger: [u8; 32],
    /// The token-minter state PDA (readonly).
    pub token_minter: [u8; 32],
    /// The local-token state PDA for the burned mint (writable).
    pub local_token: [u8; 32],
    /// The mint being burned (writable).
    pub burn_token_mint: [u8; 32],
    /// The account receiving the sent-message event data (signer, writable).
    pub message_sent_event_data: [u8; 32],
    /// The message-transmitter program (readonly).
    pub message_transmitter_program: [u8; 32],
    /// The token-messenger-minter program (readonly).
    pub token_messenger_minter_program: [u8; 32],
    /// The fungible-token program (readonly).
    pub token_program: [u8; 32],
    /// The system program (readonly).
    pub system_program: [u8; 32],
    /// The trailing pair for emit-event-capable targets, or `None`.
    pub event_accounts: Option<EventAccounts>,
}

/// The mathematical value of a [`DepositForBurnAccountKeys`], addresses as
/// byte sequences.
#[verifier::ext_equal]
pub ghost struct DepositForBurnAccountKeysV {
    pub owner: Seq<u8>,
    pub event_rent_payer: Seq<u8>,
    pub sender_authority_pda: Seq<u8>,
    pub burn_token_account: Seq<u8>,
    pub denylist_account: Seq<u8>,
    pub message_transmitter: Seq<u8>,
    pub token_messenger: Seq<u8>,
    pub remote_token_messenger: Seq<u8>,
    pub token_minter: Seq<u8>,
    pub local_token: Seq<u8>,
    pub burn_token_mint: Seq<u8>,
    pub message_sent_event_data: Seq<u8>,
    pub message_transmitter_program: Seq<u8>,
    pub token_messenger_minter_program: Seq<u8>,
    pub token_program: Seq<u8>,
    pub system_program: Seq<u8>,
    pub event_accounts: Option<EventAccountsV>,
}

impl View for DepositForBurnAccountKeys {
    type V = DepositForBurnAccountKeysV;

    open spec fn view(&self) -> DepositForBurnAccountKeysV {
        DepositForBurnAccountKeysV {
            owner: self.owner@,
            event_rent_payer: self.event_rent_payer@,
            sender_authority_pda: self.sender_authority_pda@,
            burn_token_account: self.burn_token_account@,
            denylist_account: self.denylist_account@,
            message_transmitter: self.message_transmitter@,
            token_messenger: self.token_messenger@,
            remote_token_messenger: self.remote_token_messenger@,
            token_minter: self.token_minter@,
            local_token: self.local_token@,
            burn_token_mint: self.burn_token_mint@,
            message_sent_event_data: self.message_sent_event_data@,
            message_transmitter_program: self.message_transmitter_program@,
            token_messenger_minter_program: self.token_messenger_minter_program@,
            token_program: self.token_program@,
            system_program: self.system_program@,
            event_accounts: match self.event_accounts {
                Some(e) => Some(e@),
                None => None,
            },
        }
    }
}

/// Every account address the `send_message` entry point consumes, in its
/// fixed order.
#[derive(Clone, Copy, Debug, PartialEq, Eq)]
pub struct SendMessageAccountKeys {
    /// Pays rent for the message event account (signer, writable).
    pub event_rent_payer: [u8; 32],
    /// The sender program's sender-authority PDA (signer, writable).
    pub sender_authority_pda: [u8; 32],
    /// The message-transmitter state account (writable).
    pub message_transmitter: [u8; 32],
    /// The account receiving the sent-message event data (signer, writable).
    pub message_sent_event_data: [u8; 32],
    /// The program on whose behalf the message is sent (readonly).
    pub sender_program: [u8; 32],
    /// The system program (readonly).
    pub system_program: [u8; 32],
}

/// The mathematical value of a [`SendMessageAccountKeys`], addresses as
/// byte sequences.
#[verifier::ext_equal]
pub ghost struct SendMessageAccountKeysV {
    pub event_rent_payer: Seq<u8>,
    pub sender_authority_pda: Seq<u8>,
    pub message_transmitter: Seq<u8>,
    pub message_sent_event_data: Seq<u8>,
    pub sender_program: Seq<u8>,
    pub system_program: Seq<u8>,
}

impl View for SendMessageAccountKeys {
    type V = SendMessageAccountKeysV;

    open spec fn view(&self) -> SendMessageAccountKeysV {
        SendMessageAccountKeysV {
            event_rent_payer: self.event_rent_payer@,
            sender_authority_pda: self.sender_authority_pda@,
            message_transmitter: self.message_transmitter@,
            message_sent_event_data: self.message_sent_event_data@,
            sender_program: self.sender_program@,
            system_program: self.system_program@,
        }
    }
}

/// The fixed `deposit_for_burn` account order: the single source of truth
/// for position and flags of every account, 16 entries, or 18 with the
/// trailing event pair.
pub open spec fn spec_deposit_for_burn_metas(a: DepositForBurnAccountKeysV) -> Seq<AccountMetaV> {
    let base = seq![
        meta(a.owner, true, true),
        meta(a.event_rent_payer, true, true),
        meta(a.sender_authority_pda, false, false),
        meta(a.burn_token_account, false, true),
        meta(a.denylist_account, false, false),
        meta(a.message_transmitter, false, true),
        meta(a.token_messenger, false, false),
        meta(a.remote_token_messenger, false, false),
        meta(a.token_minter, false, false),
        meta(a.local_token, false, true),
        meta(a.burn_token_mint, false, true),
        meta(a.message_sent_event_data, true, true),
        meta(a.message_transmitter_program, false, false),
        meta(a.token_messenger_minter_program, false, false),
        meta(a.token_program, false, false),
        meta(a.system_program, false, false),
    ];
    match a.event_accounts {
        Some(e) => base + seq![meta(e.event_authority, false, false), meta(e.program, false, false)],
        None => base,
    }
}

/// The fixed `send_message` account order: 6 entries.
pub open spec fn spec_send_message_metas(a: SendMessageAccountKeysV) -> Seq<AccountMetaV> {
    seq![
        meta(a.event_rent_payer, true, true),
        meta(a.sender_authority_pda, true, true),
        meta(a.message_transmitter, false, true),
        meta(a.message_sent_event_data, true, true),
        meta(a.sender_program, false, false),
        meta(a.system_program, false, false),
    ]
}

/// Assemble the ordered `deposit_for_burn` account list, exactly as the
/// fixed table prescribes.
pub fn deposit_for_burn_account_metas(a: &DepositForBurnAccountKeys) -> (r: Vec<AccountMeta>)
    ensures
        r.deep_view() == spec_deposit_for_burn_metas(a@),
{
    let mut r: Vec<AccountMeta> = Vec::new();
    r.push(AccountMeta { address: a.owner, is_signer: true, is_writable: true });
    r.push(AccountMeta { address: a.event_rent_payer, is_signer: true, is_writable: true });
    r.push(AccountMeta { address: a.sender_authority_pda, is_signer: false, is_writable: false });
    r.push(AccountMeta { address: a.burn_token_account, is_signer: false, is_writable: true });
    r.push(AccountMeta { address: a.denylist_account, is_signer: false, is_writable: false });
    r.push(AccountMeta { address: a.message_transmitter, is_signer: false, is_writable: true });
    r.push(AccountMeta { address: a.token_messenger, is_signer: false, is_writable: false });
    r.push(AccountMeta { address: a.remote_token_messenger, is_signer: false, is_writable: false });
    r.push(AccountMeta { address: a.token_minter, is_signer: false, is_writable: false });
    r.push(AccountMeta { address: a.local_token, is_signer: false, is_writable: true });
    r.push(AccountMeta { address: a.burn_token_mint, is_signer: false, is_writable: true });
    r.push(AccountMeta { address: a.message_sent_event_data, is_signer: true, is_writable: true });
    r.push(AccountMeta { address: a.message_transmitter_program, is_signer: false, is_writable: false });
    r.push(AccountMeta { address: a.token_messenger_minter_program, is_signer: false, is_writable: false });
    r.push(AccountMeta { address: a.token_program, is_signer: false, is_writable: false });
    r.push(AccountMeta { address: a.system_program, is_signer: false, is_writable: false });
    match &a.event_accounts {
        Some(e) => {
            r.push(AccountMeta { address: e.event_authority, is_signer: false, is_writable: false });
            r.push(AccountMeta { address: e.program, is_signer: false, is_writable: false });
        },
        None => {},
    }
    proof {
        assert(r.deep_view() =~~= spec_deposit_for_burn_metas(a@));
    }
    r
}

/// Assemble the ordered `send_message` account list, exactly as the fixed
/// table prescribes.
pub fn send_message_account_metas(a: &SendMessageAccountKeys) -> (r: Vec<AccountMeta>)
    ensures
        r.deep_view() == spec_send_message_metas(a@),
{
    let mut r: Vec<AccountMeta> = Vec::new();
    r.push(AccountMeta { address: a.event_rent_payer, is_signer: true, is_writable: true });
    r.push(AccountMeta { address: a.sender_authority_pda, is_signer: true, is_writable: true });
    r.push(AccountMeta { address: a.message_transmitter, is_signer: false, is_writable: true });
    r.push(AccountMeta { address: a.message_sent_event_data, is_signer: true, is_writable: true });
    r.push(AccountMeta { address: a.sender_program, is_signer: false, is_writable: false });
    r.push(AccountMeta { address: a.system_program, is_signer: false, is_writable: false });
    proof {
        assert(r.deep_view() =~~= spec_send_message_metas(a@));
    }
    r
}

/// Law: the account list order for an entry point is invariant across
/// calls — two assemblies over the same addresses yield the identical
/// ordered list, whatever order any intermediate address was derived in,
/// because each list is a function of the supplied addresses alone.
pub proof fn lemma_account_list_order_invariant(
    r1: Vec<AccountMeta>,
    r2: Vec<AccountMeta>,
    a: DepositForBurnAccountKeysV,
)
    requires
        r1.deep_view() == spec_deposit_for_burn_metas(a),
        r2.deep_view() == spec_deposit_for_burn_metas(a),
    ensures
        r1@ == r2@,
{
    broadcast use vstd::array::group_array_axioms;

    assert(r1.deep_view().len() == r1@.len());
    assert(r2.deep_view().len() == r2@.len());
    assert forall|i: int| 0 <= i < r1@.len() implies r1@[i] == r2@[i] by {
        assert(r1.deep_view()[i] == r1@[i].deep_view());
        assert(r2.deep_view()[i] == r2@[i].deep_view());
        assert(r1@[i]@ =~= r2@[i]@);
        assert(r1@[i].address =~= r2@[i].address);
    }
    assert(r1@ =~= r2@);
}

} // verus!
