use solana_lessons::lessons::airdrop::{claim, read_u16, AirdropError, IntrospectedInstruction};
use solana_lessons::lessons::auction::{buy, initialize_auction, AuctionError};
use solana_lessons::lessons::basics::{
    add, add_and_store, ask_bob_to_add, limit_range, split_amount, split_sol, AliceError, BobData, BobError,
    MyError,
};
use solana_lessons::lessons::check_transfer::{
    check_decoded_transfer, verify_transfer, ErrorCodes as TransferError, InstructionAccount, LoadedInstruction,
};
use solana_lessons::lessons::clock::{get_day_of_the_week, Weekday};
use solana_lessons::lessons::donate::{donate, withdraw as donate_withdraw, ErrorCodes as DonateError, Pda, WithdrawError};
use solana_lessons::lessons::flash_loan::{Loan, LoanError};
use solana_lessons::lessons::lamport_vault::{deposit as vault_deposit, withdraw as vault_withdraw, VaulError};
use solana_lessons::lessons::metadata::{create_token_metadata, MetaplexError};
use solana_lessons::lessons::owner::{call, create_user_account, initialize_bank, OnlyOwnerError};
use solana_lessons::lessons::points::{init_player, transfer_points, ConstraintError, STARTING_POINTS};
use solana_lessons::lessons::resizable::{space_for, update, Data, StorageError, StoredAccount};
use solana_lessons::lessons::storage::{
    copy_from_slice, init_storage, set_flag, set_map_data, set_map_info, update as storage_update, Info,
    TrueOrFalse, Val,
};
use solana_lessons::lessons::token_escrow::{make, refund, EscrowError as AnchorEscrowError};
use solana_lessons::lessons::token_sale::{mint, Errors as SaleError, SUPPLY_CAP};
use solana_lessons::lessons::tokens::{create_and_mint_token, issue_credential, mint_seeds, ErrorCodes as CredentialError};
use solana_lessons::account::AccountView;

#[test]
fn test_copy_slice() {
    let a: String = String::from("abc");
    let mut value: [u8; 32] = [0; 32];
    copy_from_slice(a.as_bytes(), &mut value);
    println!("{:?}", value);
    assert_eq!(&value[..3], b"abc");
    assert!(value[3..].iter().all(|b| *b == 0));
}

#[test]
fn copy_keeps_the_tail() {
    let mut value = [9u8; 32];
    copy_from_slice(b"xy", &mut value);
    assert_eq!(&value[..2], b"xy");
    assert!(value[2..].iter().all(|b| *b == 9));
    let long = [1u8; 40];
    copy_from_slice(&long, &mut value);
    assert_eq!(value, [1u8; 32]);
}

#[test]
fn storage_records() {
    let mut s = init_storage();
    assert_eq!((s.x, s.y, s.z), (0xaa, 0xbb, 0xcc));
    solana_lessons::lessons::storage::set(&mut s, 12);
    assert_eq!((s.x, s.y, s.z), (144, 0xbb, 0xcc));
    storage_update(&mut s, 5);
    assert_eq!(s.x, 5);
    let mut f = TrueOrFalse { flag: false };
    set_flag(&mut f, true);
    assert!(f.flag);
    let mut v = Val { key: 0, value: 0 };
    set_map_data(&mut v, 3, 4);
    assert_eq!((v.key, v.value), (3, 4));
    let mut info = Info { key: 0, value: [0; 32] };
    set_map_info(&mut info, 8, "hello");
    assert_eq!(info.key, 8);
    assert_eq!(&info.value[..5], b"hello");
    set_map_info(&mut info, 8, "hi");
    assert_eq!(&info.value[..5], b"hillo");
}

#[test]
fn arithmetic_lessons() {
    assert_eq!(add(200, 55), 255);
    assert_eq!(limit_range(9), Err(MyError::AisTooSmall));
    assert_eq!(limit_range(10), Ok(()));
    assert_eq!(limit_range(100), Ok(()));
    assert_eq!(limit_range(101), Err(MyError::AisBig));
    let mut d = BobData { result: 1 };
    assert_eq!(add_and_store(&mut d, 2, 3), Ok(()));
    assert_eq!(d.result, 5);
    assert_eq!(add_and_store(&mut d, u64::MAX, 1), Err(BobError::Overflow));
    assert_eq!(d.result, 5);
    assert_eq!(ask_bob_to_add(&mut d, 10, 20), Ok(()));
    assert_eq!(d.result, 30);
    assert_eq!(ask_bob_to_add(&mut d, u64::MAX, 2), Err(AliceError::CpiToBobFailed));
    assert_eq!(d.result, 30);
}

#[test]
fn splitting_lamports() {
    assert_eq!(split_amount(10, 3), 3);
    let r = split_sol(10, &vec![[1u8; 32], [2u8; 32], [3u8; 32]]);
    assert_eq!(r, vec![([1u8; 32], 3), ([2u8; 32], 3), ([3u8; 32], 3)]);
    let total: u64 = r.iter().map(|p| p.1).sum();
    assert!(total <= 10);
}

#[test]
fn owner_only_call() {
    let owner = solana_address::Address::from_str_const("JYLqLj2ztNMHUKXjqPthg9UiYWzkkBgGh6xJvg2v4hp").to_bytes();
    assert_eq!(call(&owner), Ok(()));
    assert_eq!(call(&[0u8; 32]), Err(OnlyOwnerError::NotOwner));
    let b = initialize_bank([1; 32]);
    assert_eq!((b.manager, b.total_deposit), ([1; 32], 0));
    let u = create_user_account([2; 32]);
    assert_eq!((u.authority, u.amount), ([2; 32], 0));
}

#[test]
fn points_move_and_are_conserved() {
    let alice = [1u8; 32];
    let mut from = init_player(alice);
    let mut to = init_player([2u8; 32]);
    assert_eq!(from.points, STARTING_POINTS);
    assert_eq!(transfer_points(&mut from, &mut to, &alice, 400), Ok(()));
    assert_eq!((from.points, to.points), (9600, 10400));
    assert_eq!(transfer_points(&mut from, &mut to, &[2u8; 32], 1), Err(ConstraintError::HasOne));
    assert_eq!(transfer_points(&mut from, &mut to, &alice, 9601), Err(ConstraintError::Raw));
    assert_eq!(from.points + to.points, 2 * STARTING_POINTS);
}

#[test]
fn donations() {
    let w = [5u8; 32];
    let mut pda = Pda { withdrawer: [0; 32], lamports: 100 };
    assert_eq!(donate(&mut pda, false, &w), Ok(()));
    assert_eq!(pda.withdrawer, w);
    assert_eq!(donate(&mut pda, false, &w), Ok(()));
    assert_eq!(donate(&mut pda, false, &[6u8; 32]), Err(DonateError::MismatchWithdrawer));
    let mut bal = 10u64;
    assert_eq!(donate_withdraw(&mut pda, &[6u8; 32], &mut bal, 50), Ok(()));
    assert_eq!((pda.lamports, bal), (100, 10));
    assert_eq!(donate_withdraw(&mut pda, &w, &mut bal, 101), Err(WithdrawError::Code(DonateError::Insufficient)));
    assert_eq!(donate_withdraw(&mut pda, &w, &mut bal, 60), Ok(()));
    assert_eq!((pda.lamports, bal), (40, 70));
    let mut full = u64::MAX;
    assert_eq!(donate_withdraw(&mut pda, &w, &mut full, 1), Err(WithdrawError::ArithmeticOverflow));
    assert_eq!(pda.lamports, 40);
}

#[test]
fn token_sale_caps_supply() {
    assert_eq!(mint(5, 0), Ok(500));
    assert_eq!(mint(u64::MAX, 0), Err(SaleError::Overflow));
    assert_eq!(mint(1, u64::MAX), Err(SaleError::Overflow));
    assert_eq!(mint(1, SUPPLY_CAP), Err(SaleError::SupplyLimit));
    assert_eq!(mint(10_000_000_000, 0), Ok(SUPPLY_CAP));
    assert_eq!(create_and_mint_token(), 100_000_000_000);
}

#[test]
fn anchor_vault_rules() {
    assert_eq!(vault_deposit(1, 890_880, 1_000_000), Err(VaulError::VaultAlreadyExists));
    assert_eq!(vault_deposit(0, 890_880, 890_880), Err(VaulError::InvalidAmount));
    assert_eq!(vault_deposit(0, 890_880, 890_881), Ok(()));
    assert_eq!(vault_withdraw(0), Err(VaulError::InvalidAmount));
    assert_eq!(vault_withdraw(1234), Ok(1234));
}

#[test]
fn resizable_storage() {
    assert_eq!(space_for(10), 55);
    let program = [9u8; 32];
    let user = [1u8; 32];
    let mut acc = StoredAccount { owner: program, lamports: 1000, record: Data { auth: user, bump: 1, data: vec![1] } };
    let mut bal = 50u64;
    assert_eq!(update(&mut acc, &program, &user, &mut bal, vec![2, 2], 1500), Ok(500));
    assert_eq!(acc.record.data, vec![2, 2]);
    assert_eq!(update(&mut acc, &program, &user, &mut bal, vec![3], 800), Ok(0));
    assert_eq!((acc.lamports, bal), (800, 250));
    assert_eq!(acc.record.data, vec![3]);
    assert_eq!(update(&mut acc, &program, &user, &mut bal, vec![4, 4, 4], 800), Ok(0));
    assert_eq!(acc.record.data, vec![3]);
    assert_eq!(update(&mut acc, &[8u8; 32], &user, &mut bal, vec![], 0), Err(StorageError::InvalidAccountOwner));
    assert_eq!(update(&mut acc, &program, &[2u8; 32], &mut bal, vec![], 0), Err(StorageError::InvalidAuthority));
    let mut full = u64::MAX;
    assert_eq!(update(&mut acc, &program, &user, &mut full, vec![], 0), Err(StorageError::ArithmeticOverflow));
}

#[test]
fn weekday_of_timestamps() {
    assert_eq!(get_day_of_the_week(0), Some(Weekday::Thu));
    assert_eq!(get_day_of_the_week(86_400 * 4), Some(Weekday::Mon));
    assert_eq!(get_day_of_the_week(-1), Some(Weekday::Wed));
    assert_eq!(get_day_of_the_week(1_700_000_000), Some(Weekday::Tue));
    assert_eq!(get_day_of_the_week(i64::MAX), None);
}

fn ed25519_data(distributor: [u8; 32], recipient: [u8; 32], amount: u64) -> Vec<u8> {
    let mut d = vec![0u8; 16];
    d[0] = 1;
    let fields: [u16; 7] = [48, 0xffff, 16, 0xffff, 112, 40, 0xffff];
    for (i, f) in fields.iter().enumerate() {
        d[2 + 2 * i..4 + 2 * i].copy_from_slice(&f.to_le_bytes());
    }
    d.extend_from_slice(&distributor);
    d.extend_from_slice(&[0u8; 64]);
    d.extend_from_slice(&recipient);
    d.extend_from_slice(&amount.to_le_bytes());
    d
}

#[test]
fn airdrop_claims() {
    let ed = solana_address::Address::from_str_const("Ed25519SigVerify111111111111111111111111111").to_bytes();
    let dist = [3u8; 32];
    let rec = [4u8; 32];
    let ix = IntrospectedInstruction { program_id: ed, num_accounts: 0, data: ed25519_data(dist, rec, 77) };
    let c = claim(1, Some(&ix), &dist, &rec).unwrap();
    assert_eq!((c.distributor, c.recipient, c.amount), (dist, rec, 77));
    assert_eq!(claim(0, Some(&ix), &dist, &rec).err(), Some(AirdropError::NoSignatureFound));
    assert_eq!(claim(1, None, &dist, &rec).err(), Some(AirdropError::InvalidInstructionSysvar));
    assert_eq!(claim(1, Some(&ix), &[9u8; 32], &rec).err(), Some(AirdropError::DistributorMismatch));
    assert_eq!(claim(1, Some(&ix), &dist, &[9u8; 32]).err(), Some(AirdropError::RecipientMismatch));
    let other = IntrospectedInstruction { program_id: [0; 32], num_accounts: 0, data: ix.data.clone() };
    assert_eq!(claim(1, Some(&other), &dist, &rec).err(), Some(AirdropError::InvalidInstructionSysvar));
    let with_accounts = IntrospectedInstruction { program_id: ed, num_accounts: 1, data: ix.data.clone() };
    assert_eq!(claim(1, Some(&with_accounts), &dist, &rec).err(), Some(AirdropError::BadEd25519Account));
    let short = IntrospectedInstruction { program_id: ed, num_accounts: 0, data: vec![1u8; 16] };
    assert_eq!(claim(1, Some(&short), &dist, &rec).err(), Some(AirdropError::BadEd25519HEADER_LENGTH));
    assert_eq!(read_u16(&[1, 2, 3, 4], 1), Ok(0x0403));
    assert_eq!(read_u16(&[1, 2, 3], 1), Err(AirdropError::Overflow));
}

fn transfer_ix(lamports: u64, signer: bool) -> LoadedInstruction {
    let mut data = 2u32.to_le_bytes().to_vec();
    data.extend_from_slice(&lamports.to_le_bytes());
    LoadedInstruction {
        program_id: [0; 32],
        accounts: vec![
            InstructionAccount { pubkey: [1; 32], is_signer: signer, is_writable: true },
            InstructionAccount { pubkey: [2; 32], is_signer: false, is_writable: true },
        ],
        data,
    }
}

#[test]
fn transfer_checks() {
    assert_eq!(verify_transfer(1, Some(&transfer_ix(5, true)), 5), Ok(()));
    assert_eq!(verify_transfer(1, Some(&transfer_ix(5, true)), 6), Err(TransferError::IncorrectAmount));
    assert_eq!(verify_transfer(1, Some(&transfer_ix(5, false)), 5), Err(TransferError::NotSigner));
    assert_eq!(verify_transfer(0, Some(&transfer_ix(5, true)), 5), Err(TransferError::MissingInstruction));
    let mut assign = transfer_ix(5, true);
    assign.data = 1u32.to_le_bytes().to_vec();
    assign.data.extend_from_slice(&[7u8; 32]);
    assert_eq!(verify_transfer(1, Some(&assign), 5), Err(TransferError::NotSystemTransfer));
    let mut garbage = transfer_ix(5, true);
    garbage.data = vec![1, 2];
    assert_eq!(verify_transfer(1, Some(&garbage), 5), Err(TransferError::InvalidInstructionData));
    let ix = transfer_ix(5, true);
    assert_eq!(check_decoded_transfer(1, Some(&ix), Some(None), 5), Err(TransferError::NotSystemTransfer));
}

#[test]
fn metadata_account_is_derived() {
    let mint_key = [6u8; 32];
    let program = solana_address::Address::from_str_const("metaqbxxUerdq28cj1RbAWkYQm3ybzjb6a8bt518x1s");
    let (pda, _) = solana_address::Address::find_program_address(&[b"metadata", program.as_ref(), &mint_key], &program);
    let d = create_token_metadata(&pda.to_bytes(), &mint_key, &[1u8; 32], "N".to_string(), "S".to_string(),
        "u".to_string(), 500, true).unwrap();
    assert_eq!(d.creators.len(), 1);
    assert_eq!(d.creators[0].share, 100);
    assert_eq!(d.seller_fee_basis_points, 500);
    assert_eq!(create_token_metadata(&[0u8; 32], &mint_key, &[1u8; 32], "N".to_string(), "S".to_string(),
        "u".to_string(), 500, true).err().map(|e| e == MetaplexError::InvalidMetadataAccount), Some(true));
}

#[test]
fn credentials_and_mint_seeds() {
    assert_eq!(issue_credential(Some([1; 32]), &[1; 32]), Ok(1));
    assert_eq!(issue_credential(Some([1; 32]), &[2; 32]), Err(CredentialError::InvalidMintAuthority));
    assert_eq!(mint_seeds(&[1; 32], "gold"), vec![vec![1u8; 32], b"gold".to_vec()]);
}

#[test]
fn framework_escrow() {
    let (e, deposit) = make(1, 10, 20, [1; 32], [2; 32], [3; 32], 255).unwrap();
    assert_eq!((e.receive, deposit), (20, 10));
    assert_eq!(make(1, 10, 0, [1; 32], [2; 32], [3; 32], 255).err(), Some(AnchorEscrowError::InvalidAmount));
    assert_eq!(refund(&e, &[1; 32], &[2; 32], 10), Ok(10));
    assert_eq!(refund(&e, &[9; 32], &[2; 32], 10), Err(AnchorEscrowError::InvalidMaker));
    assert_eq!(refund(&e, &[1; 32], &[9; 32], 10), Err(AnchorEscrowError::InvalidMintA));
}

#[test]
fn auction_price_falls() {
    let a = initialize_auction([1; 32], [2; 32], 1000, 100, 100, 0);
    assert_eq!(buy(&a, -1, 5000).err(), Some(AuctionError::AuctionNotStarted));
    assert_eq!(buy(&a, 0, 5000), Ok(1000));
    assert_eq!(buy(&a, 50, 5000), Ok(550));
    assert_eq!(buy(&a, 100, 5000), Ok(100));
    assert_eq!(buy(&a, 50, 10).err(), Some(AuctionError::InsufficientFunds));
}

#[test]
fn flash_loan_accounts() {
    let v = |signer: bool| AccountView { address: [0; 32], owner: [0; 32], lamports: 0, data: vec![], is_signer: signer, is_writable: true };
    let few = vec![v(true)];
    assert_eq!(Loan::try_from(&few).err(), Some(LoanError::AccountNotEnoughKeys));
    let unsigned: Vec<AccountView> = (0..9).map(|_| v(false)).collect();
    assert_eq!(Loan::try_from(&unsigned).err(), Some(LoanError::AccountNotSigner));
    let signed: Vec<AccountView> = (0..9).map(|i| v(i == 0)).collect();
    assert_eq!(Loan::try_from(&signed).err(), Some(LoanError::ConstraintSeeds));
}

#[test]
fn flash_loan_accepts_derived_accounts() {
    let program = solana_address::Address::from_str_const("2zdW2PReARyVmUrKk7dKSmoumf2fkTPAcawEUuU4KHPA").to_bytes();
    let sysvar = pinocchio::sysvars::instructions::INSTRUCTIONS_ID.to_bytes();
    let (protocol, _) = solana_address::Address::find_program_address(&[b"protocol"], &solana_address::Address::new_from_array(program));
    let token = pinocchio_token::ID.to_bytes();
    let mint = [4u8; 32];
    let (protocol_ata, _) = solana_address::Address::find_program_address(
        &[protocol.as_ref(), &token, &mint],
        &pinocchio_associated_token_account::ID,
    );
    let acc = |address: [u8; 32], owner: [u8; 32], signer: bool| AccountView {
        address, owner, lamports: 1, data: vec![], is_signer: signer, is_writable: true,
    };
    let mut accounts = vec![
        acc([1; 32], [0; 32], true),
        acc(protocol.to_bytes(), [0; 32], false),
        acc(mint, token, false),
        acc([5; 32], token, false),
        acc(protocol_ata.to_bytes(), token, false),
        acc([6; 32], [0; 32], false),
        acc(token, [0; 32], false),
        acc([7; 32], [0; 32], false),
        acc([0; 32], [0; 32], false),
    ];
    assert_eq!(Loan::try_from(&accounts).err(), Some(LoanError::ConstraintAddress));
    accounts[5].address = sysvar;
    let loan = Loan::try_from(&accounts).unwrap();
    assert_eq!(loan.protocol.address, protocol.to_bytes());
    accounts[4].address = [8; 32];
    assert_eq!(Loan::try_from(&accounts).err(), Some(LoanError::ConstraintAssociated));
}
