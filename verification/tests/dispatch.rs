use nostd_invoke::{
    invoke, invoke_signed, invoke_unchecked, AccountHandle, AccountMeta, AccountRecord,
    BorrowKind, Instruction, InvokeError,
};
use solana_program::pubkey::Pubkey;

fn key(fill: u8) -> Pubkey {
    Pubkey::new_from_array([fill; 32])
}

fn account(fill: u8) -> AccountHandle {
    AccountHandle {
        key: key(fill),
        owner: key(200),
        lamports: 1_000 + fill as u64,
        data_len: 10 * fill as usize,
        is_signer: fill % 2 == 1,
        is_writable: fill % 3 == 0,
        executable: fill == 4,
    }
}

fn descriptor(metas: Vec<AccountMeta>) -> Instruction {
    Instruction { program_id: key(99), accounts: metas, data: vec![7, 0, 0, 0, 1, 2] }
}

#[test]
fn fewer_metas_than_accounts_is_not_enough_account_keys() {
    let a = account(1);
    let b = account(2);
    let instruction = descriptor(vec![AccountMeta::writable(a.key)]);
    let seeds: &[&[&[u8]]] = &[&[b"seed"]];
    let result = invoke_signed(instruction, &[&a, &b], seeds);
    assert_eq!(result.unwrap_err(), InvokeError::NotEnoughAccountKeys);
}

#[test]
fn no_metas_for_one_account_is_not_enough_account_keys() {
    let a = account(1);
    let result = invoke_signed(descriptor(vec![]), &[&a], &[]);
    assert_eq!(result.unwrap_err(), InvokeError::NotEnoughAccountKeys);
}

#[test]
fn too_few_metas_is_reported_before_a_wrong_identifier() {
    let a = account(1);
    let b = account(2);
    let instruction = descriptor(vec![AccountMeta::writable(key(50))]);
    let result = invoke_signed(instruction, &[&a, &b], &[]);
    assert_eq!(result.unwrap_err(), InvokeError::NotEnoughAccountKeys);
}

#[test]
fn accounts_in_the_wrong_order_are_an_invalid_argument() {
    let a = account(1);
    let b = account(2);
    let instruction =
        descriptor(vec![AccountMeta::writable(a.key), AccountMeta::readonly(b.key)]);
    let result = invoke_signed(instruction, &[&b, &a], &[]);
    assert_eq!(result.unwrap_err(), InvokeError::InvalidArgument);
}

#[test]
fn a_wrong_identifier_at_the_last_place_is_an_invalid_argument() {
    let a = account(1);
    let b = account(2);
    let c = account(3);
    let instruction = descriptor(vec![
        AccountMeta::writable(a.key),
        AccountMeta::readonly(b.key),
        AccountMeta::readonly(key(77)),
    ]);
    let result = invoke_signed(instruction, &[&a, &b, &c], &[]);
    assert_eq!(result.unwrap_err(), InvokeError::InvalidArgument);
}

#[test]
fn identifiers_that_differ_in_one_byte_are_an_invalid_argument() {
    let a = account(1);
    let mut bytes = [1u8; 32];
    bytes[31] = 2;
    let instruction = descriptor(vec![AccountMeta::writable(Pubkey::new_from_array(bytes))]);
    let result = invoke_signed(instruction, &[&a], &[]);
    assert_eq!(result.unwrap_err(), InvokeError::InvalidArgument);
}

#[test]
fn matching_accounts_are_laid_out_in_order() {
    let a = account(3);
    let b = account(4);
    let metas = vec![AccountMeta::writable_signer(a.key), AccountMeta::readonly(b.key)];
    let seed_a: &[&[u8]] = &[b"vault", &[254]];
    let seed_b: &[&[u8]] = &[b"other"];
    let seeds: &[&[&[u8]]] = &[seed_a, seed_b];
    let call = invoke_signed(descriptor(metas.clone()), &[&a, &b], seeds).unwrap();
    assert_eq!(call.instruction.program_id, key(99));
    assert_eq!(call.instruction.accounts, metas);
    assert_eq!(call.instruction.data, vec![7, 0, 0, 0, 1, 2]);
    assert_eq!(
        call.records,
        vec![
            AccountRecord {
                key: key(3),
                lamports: 1_003,
                data_len: 30,
                owner: key(200),
                rent_epoch: 0,
                is_signer: true,
                is_writable: true,
                executable: false,
            },
            AccountRecord {
                key: key(4),
                lamports: 1_004,
                data_len: 40,
                owner: key(200),
                rent_epoch: 0,
                is_signer: false,
                is_writable: false,
                executable: true,
            },
        ]
    );
    assert_eq!(call.probes, vec![BorrowKind::Exclusive, BorrowKind::Shared]);
    assert_eq!(call.signers_seeds, seeds);
}

#[test]
fn the_probe_follows_the_descriptor_not_the_handle() {
    // The handle is writable, the descriptor asks to read only: a shared borrow.
    let a = account(3);
    assert!(a.is_writable);
    let call = invoke_signed(descriptor(vec![AccountMeta::readonly(a.key)]), &[&a], &[]).unwrap();
    assert_eq!(call.probes, vec![BorrowKind::Shared]);
    // The handle is read-only, the descriptor asks to write: an exclusive borrow.
    let b = account(1);
    assert!(!b.is_writable);
    let call = invoke_signed(descriptor(vec![AccountMeta::writable(b.key)]), &[&b], &[]).unwrap();
    assert_eq!(call.probes, vec![BorrowKind::Exclusive]);
}

#[test]
fn a_descriptor_may_name_more_accounts_than_are_supplied() {
    let a = account(1);
    let metas = vec![AccountMeta::readonly(a.key), AccountMeta::writable(key(2))];
    let call = invoke_signed(descriptor(metas.clone()), &[&a], &[]).unwrap();
    assert_eq!(call.instruction.accounts, metas);
    assert_eq!(call.records, vec![a.to_record()]);
    assert_eq!(call.probes, vec![BorrowKind::Shared]);
}

#[test]
fn no_accounts_and_no_metas_pass() {
    let none: [&AccountHandle; 0] = [];
    let call = invoke_signed(descriptor(vec![]), &none, &[]).unwrap();
    assert!(call.records.is_empty());
    assert!(call.probes.is_empty());
    assert!(call.signers_seeds.is_empty());
}

#[test]
fn invoke_is_invoke_signed_without_seed_sets() {
    let a = account(3);
    let b = account(5);
    let metas = vec![AccountMeta::writable(a.key), AccountMeta::readonly_signer(b.key)];
    let plain = invoke(descriptor(metas.clone()), &[&a, &b]).unwrap();
    let signed = invoke_signed(descriptor(metas), &[&a, &b], &[]).unwrap();
    assert_eq!(plain.instruction.program_id, signed.instruction.program_id);
    assert_eq!(plain.instruction.accounts, signed.instruction.accounts);
    assert_eq!(plain.instruction.data, signed.instruction.data);
    assert_eq!(plain.records, signed.records);
    assert_eq!(plain.probes, signed.probes);
    assert_eq!(plain.signers_seeds, signed.signers_seeds);
    assert!(plain.signers_seeds.is_empty());
}

#[test]
fn invoke_refuses_what_invoke_signed_refuses() {
    let a = account(1);
    let b = account(2);
    let short = invoke(descriptor(vec![AccountMeta::readonly(a.key)]), &[&a, &b]);
    assert_eq!(short.unwrap_err(), InvokeError::NotEnoughAccountKeys);
    let wrong = invoke(descriptor(vec![AccountMeta::readonly(b.key)]), &[&a]);
    assert_eq!(wrong.unwrap_err(), InvokeError::InvalidArgument);
}

#[test]
fn invoke_unchecked_checks_nothing_and_probes_nothing() {
    let a = account(1);
    let b = account(2);
    // One meta for two records, and neither identifier matches.
    let instruction = descriptor(vec![AccountMeta::writable(key(60))]);
    let seed: &[&[u8]] = &[b"s"];
    let seeds: &[&[&[u8]]] = &[seed];
    let call = invoke_unchecked(instruction, vec![b.to_record(), a.to_record()], seeds);
    assert_eq!(call.instruction.accounts, vec![AccountMeta::writable(key(60))]);
    assert_eq!(call.instruction.data, vec![7, 0, 0, 0, 1, 2]);
    assert_eq!(call.records, vec![b.to_record(), a.to_record()]);
    assert!(call.probes.is_empty());
    assert_eq!(call.signers_seeds, seeds);
}

#[test]
fn a_record_carries_every_field_of_the_handle() {
    let handle = AccountHandle {
        key: key(11),
        owner: key(12),
        lamports: 13,
        data_len: 14,
        is_signer: true,
        is_writable: false,
        executable: true,
    };
    assert_eq!(
        handle.to_record(),
        AccountRecord {
            key: key(11),
            lamports: 13,
            data_len: 14,
            owner: key(12),
            rent_epoch: 0,
            is_signer: true,
            is_writable: false,
            executable: true,
        }
    );
}

#[test]
fn the_four_kinds_of_account_meta() {
    let k = key(5);
    assert_eq!(
        AccountMeta::readonly(k),
        AccountMeta { pubkey: k, is_writable: false, is_signer: false }
    );
    assert_eq!(
        AccountMeta::writable(k),
        AccountMeta { pubkey: k, is_writable: true, is_signer: false }
    );
    assert_eq!(
        AccountMeta::readonly_signer(k),
        AccountMeta { pubkey: k, is_writable: false, is_signer: true }
    );
    assert_eq!(
        AccountMeta::writable_signer(k),
        AccountMeta { pubkey: k, is_writable: true, is_signer: true }
    );
}
