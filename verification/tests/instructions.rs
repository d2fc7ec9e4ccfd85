use nostd_invoke::instructions::advance_nonce_account::AdvanceNonceAccount;
use nostd_invoke::instructions::allocate::Allocate;
use nostd_invoke::instructions::allocate_with_seed::AllocateWithSeed;
use nostd_invoke::instructions::assign::Assign;
use nostd_invoke::instructions::assign_with_seed::AssignWithSeed;
use nostd_invoke::instructions::authorize_nonce_account::AuthorizeNonceAccount;
use nostd_invoke::instructions::create_account::CreateAccount;
use nostd_invoke::instructions::create_account_with_seed::CreateAccountWithSeed;
use nostd_invoke::instructions::initialize_nonce_account::InitializeNonceAccount;
use nostd_invoke::instructions::transfer::Transfer;
use nostd_invoke::instructions::transfer_with_seed::TransferWithSeed;
use nostd_invoke::key::is_short_seed;
use nostd_invoke::{AccountHandle, AccountMeta, BorrowKind, Invocation};
use solana_program::pubkey::Pubkey;

fn key(fill: u8) -> Pubkey {
    Pubkey::new_from_array([fill; 32])
}

/// A key whose bytes are all different: 1, 2, ..., 32, each plus `shift`.
fn counting_key(shift: u8) -> Pubkey {
    let mut bytes = [0u8; 32];
    for (i, byte) in bytes.iter_mut().enumerate() {
        *byte = shift + 1 + i as u8;
    }
    Pubkey::new_from_array(bytes)
}

fn counting_bytes(shift: u8) -> Vec<u8> {
    (0..32u8).map(|i| shift + 1 + i).collect()
}

fn handle(fill: u8) -> AccountHandle {
    AccountHandle {
        key: key(fill),
        owner: key(0),
        lamports: 5_000_000,
        data_len: fill as usize,
        is_signer: false,
        is_writable: false,
        executable: false,
    }
}

fn meta(fill: u8, is_writable: bool, is_signer: bool) -> AccountMeta {
    AccountMeta { pubkey: key(fill), is_writable, is_signer }
}

fn assert_system_call(
    call: &Invocation,
    metas: &[AccountMeta],
    data: &[u8],
    accounts: &[&AccountHandle],
    seeds: &[&[&[u8]]],
) {
    assert_eq!(call.instruction.program_id.to_bytes(), [0u8; 32]);
    assert_eq!(call.instruction.program_id, solana_program::system_program::id());
    assert_eq!(call.instruction.accounts, metas);
    assert_eq!(call.instruction.data, data);
    let records: Vec<_> = accounts.iter().map(|a| a.to_record()).collect();
    assert_eq!(call.records, records);
    let probes: Vec<_> = metas
        .iter()
        .map(|m| if m.is_writable { BorrowKind::Exclusive } else { BorrowKind::Shared })
        .collect();
    assert_eq!(call.probes, probes);
    assert_eq!(call.signers_seeds, seeds);
}

const SEEDS: &[&[&[u8]]] = &[&[b"authority", &[255]]];

#[test]
fn transfer_of_one_million_between_two_accounts() {
    let from = handle(1);
    let to = handle(2);
    let op = Transfer { from: &from, to: &to, lamports: 1_000_000 };
    let instruction = op.instruction();
    assert_eq!(instruction.data.len(), 12);
    assert_eq!(instruction.data[0], 2);
    assert_eq!(instruction.data[4..12], [0x40, 0x42, 0x0f, 0, 0, 0, 0, 0]);
    assert_eq!(instruction.data, vec![2, 0, 0, 0, 0x40, 0x42, 0x0f, 0, 0, 0, 0, 0]);
    assert_eq!(instruction.accounts.len(), 2);
    assert_eq!(instruction.accounts[0], meta(1, true, true));
    assert_eq!(instruction.accounts[1], meta(2, true, false));
    assert_eq!(instruction.program_id.to_bytes(), [0u8; 32]);
}

#[test]
fn transfer_flags_do_not_depend_on_the_handles() {
    let mut from = handle(1);
    let mut to = handle(2);
    from.is_writable = false;
    to.is_signer = true;
    let op = Transfer { from: &from, to: &to, lamports: 1 };
    assert_eq!(op.instruction().accounts, vec![meta(1, true, true), meta(2, true, false)]);
    // The records do carry the handles' own flags.
    let call = op.invoke().unwrap();
    assert!(!call.records[0].is_writable);
    assert!(call.records[1].is_signer);
}

#[test]
fn transfer_invoke_and_invoke_signed() {
    let from = handle(1);
    let to = handle(2);
    let op = Transfer { from: &from, to: &to, lamports: u64::MAX };
    let metas = [meta(1, true, true), meta(2, true, false)];
    let mut data = vec![2, 0, 0, 0];
    data.extend([0xff; 8]);
    assert_system_call(&op.invoke().unwrap(), &metas, &data, &[&from, &to], &[]);
    assert_system_call(&op.invoke_signed(SEEDS).unwrap(), &metas, &data, &[&from, &to], SEEDS);
    assert_system_call(&op.invoke_signed(&[]).unwrap(), &metas, &data, &[&from, &to], &[]);
}

#[test]
fn create_account_layout() {
    let from = handle(1);
    let to = handle(2);
    let owner = counting_key(100);
    let op = CreateAccount {
        from: &from,
        to: &to,
        lamports: 0x0102_0304_0506_0708,
        space: 165,
        owner: &owner,
    };
    let mut data = vec![0, 0, 0, 0];
    data.extend([8, 7, 6, 5, 4, 3, 2, 1]);
    data.extend([165, 0, 0, 0, 0, 0, 0, 0]);
    data.extend(counting_bytes(100));
    assert_eq!(data.len(), 52);
    let instruction = op.instruction();
    assert_eq!(instruction.data[0], 0);
    assert_eq!(instruction.data, data);
    let metas = [meta(1, true, true), meta(2, true, true)];
    assert_system_call(&op.invoke().unwrap(), &metas, &data, &[&from, &to], &[]);
    assert_system_call(&op.invoke_signed(SEEDS).unwrap(), &metas, &data, &[&from, &to], SEEDS);
}

#[test]
fn assign_layout() {
    let account = handle(3);
    let owner = counting_key(0);
    let op = Assign { account: &account, owner: &owner };
    let mut data = vec![1, 0, 0, 0];
    data.extend(counting_bytes(0));
    assert_eq!(data.len(), 36);
    assert_eq!(op.instruction().data, data);
    let metas = [meta(3, true, true)];
    assert_system_call(&op.invoke().unwrap(), &metas, &data, &[&account], &[]);
    assert_system_call(&op.invoke_signed(SEEDS).unwrap(), &metas, &data, &[&account], SEEDS);
}

#[test]
fn allocate_layout() {
    let account = handle(3);
    let op = Allocate { account: &account, space: 1 << 40 };
    let data = vec![8, 0, 0, 0, 0, 0, 0, 0, 0, 1, 0, 0];
    assert_eq!(op.instruction().data, data);
    let metas = [meta(3, true, true)];
    assert_system_call(&op.invoke().unwrap(), &metas, &data, &[&account], &[]);
    assert_system_call(&op.invoke_signed(SEEDS).unwrap(), &metas, &data, &[&account], SEEDS);
}

#[test]
fn advance_nonce_account_is_one_byte() {
    let nonce = handle(1);
    let sysvar = handle(2);
    let authority = handle(3);
    let op = AdvanceNonceAccount {
        account: &nonce,
        recent_blockhashes_sysvar: &sysvar,
        authority: &authority,
    };
    let data = vec![4];
    assert_eq!(op.instruction().data, data);
    let metas = [meta(1, true, false), meta(2, false, false), meta(3, false, true)];
    let accounts = [&nonce, &sysvar, &authority];
    assert_system_call(&op.invoke().unwrap(), &metas, &data, &accounts, &[]);
    assert_system_call(&op.invoke_signed(SEEDS).unwrap(), &metas, &data, &accounts, SEEDS);
}

#[test]
fn initialize_nonce_account_layout() {
    let nonce = handle(1);
    let blockhashes = handle(2);
    let rent = handle(3);
    let authority = counting_key(50);
    let op = InitializeNonceAccount {
        account: &nonce,
        recent_blockhashes_sysvar: &blockhashes,
        rent_sysvar: &rent,
        authority: &authority,
    };
    let mut data = vec![6, 0, 0, 0];
    data.extend(counting_bytes(50));
    assert_eq!(data.len(), 36);
    assert_eq!(op.instruction().data, data);
    let metas = [meta(1, true, false), meta(2, false, false), meta(3, false, false)];
    let accounts = [&nonce, &blockhashes, &rent];
    assert_system_call(&op.invoke().unwrap(), &metas, &data, &accounts, &[]);
    assert_system_call(&op.invoke_signed(SEEDS).unwrap(), &metas, &data, &accounts, SEEDS);
}

#[test]
fn authorize_nonce_account_layout() {
    let nonce = handle(1);
    let authority = handle(2);
    let new_authority = counting_key(7);
    let op = AuthorizeNonceAccount {
        account: &nonce,
        authority: &authority,
        new_authority: &new_authority,
    };
    let mut data = vec![7, 0, 0, 0];
    data.extend(counting_bytes(7));
    assert_eq!(data.len(), 36);
    assert_eq!(op.instruction().data, data);
    let metas = [meta(1, true, false), meta(2, false, true)];
    let accounts = [&nonce, &authority];
    assert_system_call(&op.invoke().unwrap(), &metas, &data, &accounts, &[]);
    assert_system_call(&op.invoke_signed(SEEDS).unwrap(), &metas, &data, &accounts, SEEDS);
}

#[test]
fn create_account_with_seed_vault() {
    let from = handle(1);
    let to = handle(2);
    let owner = key(9);
    let op = CreateAccountWithSeed {
        from: &from,
        to: &to,
        base: None,
        seed: "vault",
        lamports: 1_000_000,
        space: 128,
        owner: &owner,
    };
    let instruction = op.instruction();
    assert_eq!(instruction.data.len(), 40 + 5 + 48);
    assert_eq!(instruction.data.len(), 93);
    assert_eq!(instruction.data[0], 3);
    assert_eq!(instruction.data[36..40], [5, 0, 0, 0]);
    assert_eq!(&instruction.data[40..45], b"vault");
    assert_eq!(instruction.data[53..61], [128, 0, 0, 0, 0, 0, 0, 0]);
}

#[test]
fn create_account_with_seed_layout() {
    let from = handle(1);
    let to = handle(2);
    let mut base = handle(0);
    base.key = counting_key(0);
    let owner = counting_key(100);
    let op = CreateAccountWithSeed {
        from: &from,
        to: &to,
        base: Some(&base),
        seed: "vault",
        lamports: 1_000_000,
        space: 128,
        owner: &owner,
    };
    let mut data = vec![3, 0, 0, 0];
    data.extend(counting_bytes(0));
    data.extend([5, 0, 0, 0]);
    data.extend(b"vault");
    data.extend([0x40, 0x42, 0x0f, 0, 0, 0, 0, 0]);
    data.extend([128, 0, 0, 0, 0, 0, 0, 0]);
    data.extend(counting_bytes(100));
    assert_eq!(data.len(), 93);
    assert_eq!(op.instruction().data, data);
    let metas = [
        meta(1, true, true),
        meta(2, true, false),
        AccountMeta { pubkey: base.key, is_writable: false, is_signer: true },
    ];
    let accounts = [&from, &to, &base];
    assert_system_call(&op.invoke().unwrap(), &metas, &data, &accounts, &[]);
    assert_system_call(&op.invoke_signed(SEEDS).unwrap(), &metas, &data, &accounts, SEEDS);
}

#[test]
fn create_account_with_seed_without_base_uses_the_funding_account() {
    let mut from = handle(1);
    from.key = counting_key(30);
    let to = handle(2);
    let owner = key(9);
    let op = CreateAccountWithSeed {
        from: &from,
        to: &to,
        base: None,
        seed: "a",
        lamports: 2,
        space: 3,
        owner: &owner,
    };
    let mut data = vec![3, 0, 0, 0];
    data.extend(counting_bytes(30));
    data.extend([1, 0, 0, 0]);
    data.extend(b"a");
    data.extend([2, 0, 0, 0, 0, 0, 0, 0]);
    data.extend([3, 0, 0, 0, 0, 0, 0, 0]);
    data.extend([9; 32]);
    let metas = [
        AccountMeta { pubkey: from.key, is_writable: true, is_signer: true },
        meta(2, true, false),
        AccountMeta { pubkey: from.key, is_writable: false, is_signer: true },
    ];
    let accounts = [&from, &to, &from];
    assert_system_call(&op.invoke().unwrap(), &metas, &data, &accounts, &[]);
    assert_system_call(&op.invoke_signed(SEEDS).unwrap(), &metas, &data, &accounts, SEEDS);
}

#[test]
fn allocate_with_seed_layout() {
    let account = handle(1);
    let mut base = handle(0);
    base.key = counting_key(10);
    let owner = counting_key(60);
    let op = AllocateWithSeed {
        account: &account,
        base: &base,
        seed: "pool-7",
        space: 0x0a0b,
        owner: &owner,
    };
    let mut data = vec![9, 0, 0, 0];
    data.extend(counting_bytes(10));
    data.extend([6, 0, 0, 0]);
    data.extend(b"pool-7");
    data.extend([0x0b, 0x0a, 0, 0, 0, 0, 0, 0]);
    data.extend(counting_bytes(60));
    assert_eq!(data.len(), 40 + 6 + 40);
    assert_eq!(op.instruction().data, data);
    let metas = [
        meta(1, true, false),
        AccountMeta { pubkey: base.key, is_writable: false, is_signer: true },
    ];
    let accounts = [&account, &base];
    assert_system_call(&op.invoke().unwrap(), &metas, &data, &accounts, &[]);
    assert_system_call(&op.invoke_signed(SEEDS).unwrap(), &metas, &data, &accounts, SEEDS);
}

#[test]
fn assign_with_seed_layout() {
    let account = handle(1);
    let mut base = handle(0);
    base.key = counting_key(10);
    let owner = counting_key(60);
    let op = AssignWithSeed { account: &account, base: &base, seed: "xy", owner: &owner };
    let mut data = vec![10, 0, 0, 0];
    data.extend(counting_bytes(10));
    data.extend([2, 0, 0, 0]);
    data.extend(b"xy");
    data.extend(counting_bytes(60));
    assert_eq!(data.len(), 40 + 2 + 32);
    assert_eq!(op.instruction().data, data);
    let metas = [
        meta(1, true, false),
        AccountMeta { pubkey: base.key, is_writable: false, is_signer: true },
    ];
    let accounts = [&account, &base];
    assert_system_call(&op.invoke().unwrap(), &metas, &data, &accounts, &[]);
    assert_system_call(&op.invoke_signed(SEEDS).unwrap(), &metas, &data, &accounts, SEEDS);
}

#[test]
fn transfer_with_seed_layout() {
    let from = handle(1);
    let base = handle(2);
    let to = handle(3);
    let owner = counting_key(60);
    let op = TransferWithSeed {
        from: &from,
        base: &base,
        to: &to,
        lamports: 258,
        seed: "from-seed",
        owner: &owner,
    };
    let mut data = vec![11, 0, 0, 0];
    data.extend([2, 1, 0, 0, 0, 0, 0, 0]);
    data.extend([9, 0, 0, 0]);
    data.extend(b"from-seed");
    data.extend(counting_bytes(60));
    assert_eq!(data.len(), 16 + 9 + 32);
    assert_eq!(op.instruction().data, data);
    let metas = [meta(1, true, false), meta(2, false, true), meta(3, true, false)];
    let accounts = [&from, &base, &to];
    assert_system_call(&op.invoke().unwrap(), &metas, &data, &accounts, &[]);
    assert_system_call(&op.invoke_signed(SEEDS).unwrap(), &metas, &data, &accounts, SEEDS);
}

#[test]
fn an_empty_seed_leaves_only_the_fixed_fields() {
    let from = handle(1);
    let base = handle(2);
    let to = handle(3);
    let owner = key(4);
    let op = TransferWithSeed {
        from: &from,
        base: &base,
        to: &to,
        lamports: 1,
        seed: "",
        owner: &owner,
    };
    let mut data = vec![11, 0, 0, 0, 1, 0, 0, 0, 0, 0, 0, 0, 0, 0, 0, 0];
    data.extend([4; 32]);
    assert_eq!(op.instruction().data, data);
    assert_eq!(op.instruction().data.len(), 16 + 32);
}

#[test]
fn the_longest_seed_fills_the_largest_buffers() {
    let seed = "0123456789abcdef0123456789abcdef";
    assert_eq!(seed.len(), 32);
    let a = handle(1);
    let b = handle(2);
    let c = handle(3);
    let owner = key(4);

    let create = CreateAccountWithSeed {
        from: &a,
        to: &b,
        base: Some(&c),
        seed,
        lamports: 1,
        space: 2,
        owner: &owner,
    }
    .instruction();
    assert_eq!(create.data.len(), 120);
    assert_eq!(create.data[36..40], [32, 0, 0, 0]);
    assert_eq!(&create.data[40..72], seed.as_bytes());
    assert_eq!(create.data[72..80], [1, 0, 0, 0, 0, 0, 0, 0]);
    assert_eq!(create.data[80..88], [2, 0, 0, 0, 0, 0, 0, 0]);
    assert_eq!(create.data[88..120], [4; 32]);

    let allocate =
        AllocateWithSeed { account: &a, base: &b, seed, space: 2, owner: &owner }.instruction();
    assert_eq!(allocate.data.len(), 112);
    assert_eq!(&allocate.data[40..72], seed.as_bytes());
    assert_eq!(allocate.data[80..112], [4; 32]);

    let assign = AssignWithSeed { account: &a, base: &b, seed, owner: &owner }.instruction();
    assert_eq!(assign.data.len(), 104);
    assert_eq!(assign.data[72..104], [4; 32]);

    let transfer =
        TransferWithSeed { from: &a, base: &b, to: &c, lamports: 1, seed, owner: &owner }
            .instruction();
    assert_eq!(transfer.data.len(), 80);
    assert_eq!(&transfer.data[16..48], seed.as_bytes());
    assert_eq!(transfer.data[48..80], [4; 32]);
}

#[test]
fn a_seed_is_measured_in_bytes() {
    // Two characters, four bytes.
    let seed = "\u{e9}\u{e8}";
    assert_eq!(seed.len(), 4);
    let a = handle(1);
    let b = handle(2);
    let owner = key(4);
    let assign = AssignWithSeed { account: &a, base: &b, seed, owner: &owner }.instruction();
    assert_eq!(assign.data.len(), 40 + 4 + 32);
    assert_eq!(assign.data[36..40], [4, 0, 0, 0]);
    assert_eq!(&assign.data[40..44], seed.as_bytes());
}

#[test]
fn every_operation_opens_with_its_discriminator() {
    let a = handle(1);
    let b = handle(2);
    let c = handle(3);
    let owner = key(4);
    let seed = "seed";
    let first = |data: Vec<u8>| data[0];
    assert_eq!(
        first(
            CreateAccount { from: &a, to: &b, lamports: 1, space: 1, owner: &owner }
                .instruction()
                .data
        ),
        0
    );
    assert_eq!(first(Assign { account: &a, owner: &owner }.instruction().data), 1);
    assert_eq!(first(Transfer { from: &a, to: &b, lamports: 1 }.instruction().data), 2);
    assert_eq!(
        first(
            CreateAccountWithSeed {
                from: &a,
                to: &b,
                base: None,
                seed,
                lamports: 1,
                space: 1,
                owner: &owner
            }
            .instruction()
            .data
        ),
        3
    );
    assert_eq!(
        first(
            AdvanceNonceAccount { account: &a, recent_blockhashes_sysvar: &b, authority: &c }
                .instruction()
                .data
        ),
        4
    );
    assert_eq!(
        first(
            InitializeNonceAccount {
                account: &a,
                recent_blockhashes_sysvar: &b,
                rent_sysvar: &c,
                authority: &owner
            }
            .instruction()
            .data
        ),
        6
    );
    assert_eq!(
        first(
            AuthorizeNonceAccount { account: &a, authority: &b, new_authority: &owner }
                .instruction()
                .data
        ),
        7
    );
    assert_eq!(first(Allocate { account: &a, space: 1 }.instruction().data), 8);
    assert_eq!(
        first(
            AllocateWithSeed { account: &a, base: &b, seed, space: 1, owner: &owner }
                .instruction()
                .data
        ),
        9
    );
    assert_eq!(
        first(AssignWithSeed { account: &a, base: &b, seed, owner: &owner }.instruction().data),
        10
    );
    assert_eq!(
        first(
            TransferWithSeed { from: &a, base: &b, to: &c, lamports: 1, seed, owner: &owner }
                .instruction()
                .data
        ),
        11
    );
}

#[test]
fn the_seed_limit_is_the_one_for_derived_addresses() {
    assert_eq!(nostd_invoke::key::MAX_SEED_LEN, solana_program::pubkey::MAX_SEED_LEN);
    assert_eq!(nostd_invoke::key::KEY_LEN, solana_program::pubkey::PUBKEY_BYTES);
}

#[test]
fn a_seed_is_short_up_to_thirty_two_bytes() {
    assert!(is_short_seed(""));
    assert!(is_short_seed("vault"));
    assert!(is_short_seed("0123456789abcdef0123456789abcdef"));
    assert!(!is_short_seed("0123456789abcdef0123456789abcdef0"));
    // Sixteen characters of two bytes each fit; seventeen do not.
    assert!(is_short_seed(&"\u{e9}".repeat(16)));
    assert!(!is_short_seed(&"\u{e9}".repeat(17)));
}
