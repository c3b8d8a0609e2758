use cctpintegration::accounts::{
    deposit_for_burn_account_metas, send_message_account_metas, DepositForBurnAccountKeys,
    EventAccounts, SendMessageAccountKeys,
};
use cctpintegration::builder::{
    deposit_for_burn_cctp, send_message, DepositForBurnAccountBundle, SendMessageAccountBundle,
};
use cctpintegration::codec::{
    encode_deposit_for_burn, encode_send_message, DepositForBurnParams, SendMessageParams,
};
use cctpintegration::pda::{
    derive_local_token_pda, derive_message_transmitter_pda, derive_remote_token_messenger_pda,
    derive_sender_authority_pda, derive_token_messenger_pda, derive_token_minter_pda,
};

fn addr(tag: u8) -> [u8; 32] {
    let mut a = [tag; 32];
    a[1] = tag.wrapping_add(9);
    a
}

fn burn_params() -> DepositForBurnParams {
    DepositForBurnParams {
        amount: 1_000_000,
        destination_domain: 3,
        mint_recipient: addr(0x61),
        destination_caller: addr(0x62),
        max_fee: 500,
        min_finality_threshold: 1_000,
    }
}

fn burn_bundle(event: bool) -> DepositForBurnAccountBundle {
    DepositForBurnAccountBundle {
        owner: addr(1),
        event_rent_payer: addr(2),
        burn_token_account: addr(3),
        denylist_account: addr(4),
        message_transmitter: addr(5),
        burn_token_mint: addr(6),
        message_sent_event_data: addr(7),
        message_transmitter_program: addr(8),
        token_program: addr(9),
        system_program: addr(10),
        event_accounts: if event {
            Some(EventAccounts { event_authority: addr(11), program: addr(12) })
        } else {
            None
        },
    }
}

#[test]
fn deposit_for_burn_account_order_and_flags() {
    let target = addr(0x50);
    let params = burn_params();
    let bundle = burn_bundle(true);
    let ix = deposit_for_burn_cctp(&params, &bundle, &target).expect("builds");

    assert_eq!(ix.program_id, target);
    assert_eq!(ix.accounts.len(), 18);

    let sender_authority = derive_sender_authority_pda(&target, 0).unwrap().0;
    let token_messenger = derive_token_messenger_pda(&target).unwrap().0;
    let remote = derive_remote_token_messenger_pda(&target, params.destination_domain).unwrap().0;
    let token_minter = derive_token_minter_pda(&target).unwrap().0;
    let local_token = derive_local_token_pda(&target, &bundle.burn_token_mint).unwrap().0;

    let expected: [([u8; 32], bool, bool); 18] = [
        (bundle.owner, true, true),
        (bundle.event_rent_payer, true, true),
        (sender_authority, false, false),
        (bundle.burn_token_account, false, true),
        (bundle.denylist_account, false, false),
        (bundle.message_transmitter, false, true),
        (token_messenger, false, false),
        (remote, false, false),
        (token_minter, false, false),
        (local_token, false, true),
        (bundle.burn_token_mint, false, true),
        (bundle.message_sent_event_data, true, true),
        (bundle.message_transmitter_program, false, false),
        (target, false, false),
        (bundle.token_program, false, false),
        (bundle.system_program, false, false),
        (addr(11), false, false),
        (addr(12), false, false),
    ];
    for (i, (address, is_signer, is_writable)) in expected.iter().enumerate() {
        assert_eq!(&ix.accounts[i].address, address, "address at position {i}");
        assert_eq!(ix.accounts[i].is_signer, *is_signer, "signer flag at position {i}");
        assert_eq!(ix.accounts[i].is_writable, *is_writable, "writable flag at position {i}");
    }
}

#[test]
fn deposit_for_burn_without_event_pair_has_sixteen_accounts() {
    let target = addr(0x51);
    let ix = deposit_for_burn_cctp(&burn_params(), &burn_bundle(false), &target).expect("builds");
    assert_eq!(ix.accounts.len(), 16);
    assert_eq!(ix.accounts[15].address, burn_bundle(false).system_program);
}

#[test]
fn deposit_for_burn_payload_matches_encoder() {
    let target = addr(0x52);
    let params = burn_params();
    let ix = deposit_for_burn_cctp(&params, &burn_bundle(true), &target).expect("builds");
    assert_eq!(ix.data, encode_deposit_for_burn(&params));
}

#[test]
fn deposit_for_burn_account_order_invariant_across_calls() {
    let target = addr(0x53);
    let params = burn_params();
    let bundle = burn_bundle(true);
    let first = deposit_for_burn_cctp(&params, &bundle, &target).expect("builds");
    let second = deposit_for_burn_cctp(&params, &bundle, &target).expect("builds");
    assert_eq!(first.accounts, second.accounts);
    assert_eq!(first, second);
}

#[test]
fn account_metas_table_is_pure() {
    let keys = DepositForBurnAccountKeys {
        owner: addr(1),
        event_rent_payer: addr(2),
        sender_authority_pda: addr(3),
        burn_token_account: addr(4),
        denylist_account: addr(5),
        message_transmitter: addr(6),
        token_messenger: addr(7),
        remote_token_messenger: addr(8),
        token_minter: addr(9),
        local_token: addr(10),
        burn_token_mint: addr(11),
        message_sent_event_data: addr(12),
        message_transmitter_program: addr(13),
        token_messenger_minter_program: addr(14),
        token_program: addr(15),
        system_program: addr(16),
        event_accounts: None,
    };
    let first = deposit_for_burn_account_metas(&keys);
    let second = deposit_for_burn_account_metas(&keys);
    assert_eq!(first, second);
    assert_eq!(first.len(), 16);
    for (i, m) in first.iter().enumerate() {
        assert_eq!(m.address, addr((i + 1) as u8));
    }
}

#[test]
fn send_message_account_order_and_flags() {
    let target = addr(0x54);
    let params = SendMessageParams {
        destination_domain: 9,
        recipient: addr(0x71),
        destination_caller: addr(0x72),
        min_finality_threshold: 55,
        message_body: vec![1, 2, 3],
    };
    let bundle = SendMessageAccountBundle {
        event_rent_payer: addr(21),
        message_sent_event_data: addr(22),
        sender_program: addr(23),
        system_program: addr(24),
    };
    let ix = send_message(&params, &bundle, &target).expect("builds");

    assert_eq!(ix.program_id, target);
    assert_eq!(ix.accounts.len(), 6);

    let sender_authority = derive_sender_authority_pda(&target, 0).unwrap().0;
    let message_transmitter = derive_message_transmitter_pda(&target).unwrap().0;

    let expected: [([u8; 32], bool, bool); 6] = [
        (bundle.event_rent_payer, true, true),
        (sender_authority, true, true),
        (message_transmitter, false, true),
        (bundle.message_sent_event_data, true, true),
        (bundle.sender_program, false, false),
        (bundle.system_program, false, false),
    ];
    for (i, (address, is_signer, is_writable)) in expected.iter().enumerate() {
        assert_eq!(&ix.accounts[i].address, address, "address at position {i}");
        assert_eq!(ix.accounts[i].is_signer, *is_signer, "signer flag at position {i}");
        assert_eq!(ix.accounts[i].is_writable, *is_writable, "writable flag at position {i}");
    }
    assert_eq!(ix.data, encode_send_message(&params));
}

#[test]
fn send_message_metas_builder_matches_table() {
    let keys = SendMessageAccountKeys {
        event_rent_payer: addr(31),
        sender_authority_pda: addr(32),
        message_transmitter: addr(33),
        message_sent_event_data: addr(34),
        sender_program: addr(35),
        system_program: addr(36),
    };
    let metas = send_message_account_metas(&keys);
    assert_eq!(metas.len(), 6);
    let signers = [true, true, false, true, false, false];
    let writables = [true, true, true, true, false, false];
    for i in 0..6 {
        assert_eq!(metas[i].address, addr((31 + i) as u8));
        assert_eq!(metas[i].is_signer, signers[i]);
        assert_eq!(metas[i].is_writable, writables[i]);
    }
}
