use solana_lessons::account::{
    mint_from_view, mint_size, token_2022_account_from_view, token_2022_mint_size, token_account_from_view,
    token_account_size,
};
use solana_lessons::account::AccountView;
use solana_lessons::address::{address_eq, Address};
use solana_lessons::escrow::amounts::{pow10, to_min_unit};
use solana_lessons::escrow::errors::{to_program_error, EscrowError};
use solana_lessons::escrow::make::{make_instruction_data, Make, MakeData};
use solana_lessons::escrow::state::Escrow;
use solana_lessons::escrow::util::{close_system_account, get_ata_address, signer_check};
use solana_lessons::program_error::ProgramError;
use solana_lessons::vault::{derive_vault_address, process_instruction as vault_dispatch, Deposit, VaultInstruction, Withdraw};

fn view(address: Address, owner: Address, lamports: u64, data: Vec<u8>, is_signer: bool) -> AccountView {
    AccountView { address, owner, lamports, data, is_signer, is_writable: true }
}

#[test]
fn test_data() {
    println!("Make data len: {}", 24);
    let ix = make_instruction_data(1, 2, 3);
    let d = MakeData::try_from(&ix[1..]).unwrap();
    assert_eq!((d.seed, d.receive, d.amount), (1, 2, 3));
}

#[test]
fn test_size() {
    println!("Escrow size: {}", Escrow::SIZE);
    assert_eq!(Escrow::SIZE, 113);
}

#[test]
fn test_space() {
    type Arr1 = [u8; 1];
    assert_eq!(core::mem::size_of::<Arr1>(), 1);
    println!("Address size: {}", Escrow::SIZE);
}

#[test]
fn test_address_len() {
    assert_eq!(std::mem::size_of::<Address>(), std::mem::size_of::<[u8; 32]>());
}

#[test]
fn test_call() {
    // whole tokens to smallest units for a mint with nine decimals
    assert_eq!(to_min_unit(1000, 9), 1_000_000_000_000);
    assert_eq!(to_min_unit(100, 9), 100_000_000_000);
}

#[test]
fn min_units_formula() {
    assert_eq!(pow10(0), 1);
    assert_eq!(pow10(19), 10_000_000_000_000_000_000);
    assert_eq!(to_min_unit(7, 0), 7);
    assert_eq!(to_min_unit(3, 6), 3_000_000);
}

#[test]
fn make_instruction_data_layout() {
    let ix = make_instruction_data(0x0102, 5, u64::MAX);
    assert_eq!(ix.len(), 25);
    assert_eq!(ix[0], 0);
    assert_eq!(&ix[1..9], &0x0102u64.to_le_bytes());
    assert_eq!(&ix[9..17], &5u64.to_le_bytes());
    assert_eq!(&ix[17..25], &u64::MAX.to_le_bytes());
    assert_eq!(MakeData::try_from(&ix[1..24]).err(), Some(ProgramError::InvalidInstructionData));
}

#[test]
fn escrow_record_round_trip() {
    let e = Escrow { seed: 42, maker: [1; 32], mint_a: [2; 32], mint_b: [3; 32], receive: 77, bump: 250 };
    let b = e.to_bytes();
    assert_eq!(b.len(), Escrow::SIZE);
    let back = Escrow::from_bytes(&b);
    assert_eq!(back.seed, 42);
    assert_eq!(back.maker, [1; 32]);
    assert_eq!(back.mint_a, [2; 32]);
    assert_eq!(back.mint_b, [3; 32]);
    assert_eq!(back.receive, 77);
    assert_eq!(back.bump, 250);
    assert!(Escrow::load_mut(&b[..112]).is_err());
}

#[test]
fn escrow_address_matches_outside_derivation() {
    let maker = [5u8; 32];
    let (pda, bump) = Escrow::derive_escrow_pda(&maker, 9).unwrap();
    let program = solana_address::Address::from_str_const("22222222222222222222222222222222222222222222");
    let (expected, expected_bump) = solana_address::Address::find_program_address(
        &[b"escrow", &maker, &9u64.to_le_bytes()],
        &program,
    );
    assert_eq!(pda, expected.to_bytes());
    assert_eq!(bump, expected_bump);
}

#[test]
fn token_accounts_are_read_under_their_programs() {
    let token = pinocchio_token::ID.to_bytes();
    let token_2022 = pinocchio_token_2022::ID.to_bytes();
    let mut data = vec![0u8; 165];
    data[..32].copy_from_slice(&[4u8; 32]);
    data[32..64].copy_from_slice(&[5u8; 32]);
    data[64..72].copy_from_slice(&321u64.to_le_bytes());
    let t = token_account_from_view(&view([1; 32], token, 0, data.clone(), false)).unwrap();
    assert_eq!((t.mint, t.owner, t.amount), ([4u8; 32], [5u8; 32], 321));
    assert_eq!(token_account_from_view(&view([1; 32], token_2022, 0, data.clone(), false)).err(), Some(ProgramError::IncorrectProgramId));
    assert_eq!(token_account_from_view(&view([1; 32], token, 0, vec![0u8; 164], false)).err(), Some(ProgramError::InvalidAccountData));
    let t2 = token_2022_account_from_view(&view([1; 32], token_2022, 0, data.clone(), false)).unwrap();
    assert_eq!(t2.amount, 321);
    assert_eq!(token_2022_account_from_view(&view([1; 32], token, 0, data, false)).err(), Some(ProgramError::IncorrectProgramId));
    assert_eq!(token_2022_account_from_view(&view([1; 32], token_2022, 0, vec![0u8; 355], false)).err(), Some(ProgramError::InvalidAccountData));
    let mut extended = vec![0u8; 170];
    extended[165] = 2;
    assert!(token_2022_account_from_view(&view([1; 32], token_2022, 0, extended, false)).is_ok());
    let mut mint = vec![0u8; 82];
    mint[36..44].copy_from_slice(&1000u64.to_le_bytes());
    mint[44] = 6;
    let m = mint_from_view(&view([2; 32], token, 0, mint, false)).unwrap();
    assert_eq!((m.supply, m.decimals), (1000, 6));
    assert_eq!(mint_from_view(&view([2; 32], token, 0, vec![0u8; 81], false)).err(), Some(ProgramError::InvalidAccountData));
    assert!(address_eq(&[1; 32], &[1; 32]));
    assert!(!address_eq(&[1; 32], &[2; 32]));
}

#[test]
fn escrow_error_codes() {
    assert_eq!(to_program_error(EscrowError::InvalidTokenOwner), ProgramError::Custom(0));
    assert_eq!(to_program_error(EscrowError::AtaPdaDeriveMismatch), ProgramError::Custom(14));
    assert_eq!(EscrowError::EscrowMakerMismatch.code(), 13);
}

#[test]
fn make_needs_nine_accounts() {
    let ix = make_instruction_data(1, 2, 3);
    let accounts = vec![view([0; 32], [0; 32], 0, vec![], true)];
    assert_eq!(Make::try_from(&ix[1..], &accounts).err(), Some(ProgramError::NotEnoughAccountKeys));
    assert_eq!(Make::try_from(&ix[1..5], &accounts).err(), Some(ProgramError::InvalidInstructionData));
}

#[test]
fn closing_moves_every_lamport() {
    let program = solana_address::Address::from_str_const("22222222222222222222222222222222222222222222").to_bytes();
    let mut acc = view([1; 32], program, 500, vec![1, 2, 3], false);
    let mut dest = view([2; 32], [0; 32], 100, vec![], false);
    close_system_account(&mut acc, &mut dest).unwrap();
    assert_eq!(acc.lamports, 0);
    assert_eq!(dest.lamports, 600);
    assert!(acc.data.is_empty());
    assert_eq!(acc.owner, [0u8; 32]);
    let mut foreign = view([1; 32], [4; 32], 500, vec![], false);
    assert_eq!(close_system_account(&mut foreign, &mut dest).err(), Some(ProgramError::InvalidAccountOwner));
    assert_eq!(dest.lamports, 600);
}

#[test]
fn signer_is_required() {
    assert!(signer_check(&view([0; 32], [0; 32], 0, vec![], true)).is_ok());
    assert!(signer_check(&view([0; 32], [0; 32], 0, vec![], false)).is_err());
}

#[test]
fn vault_deposit_checks() {
    let payer = view([1; 32], [0; 32], 1000, vec![], true);
    let vault = view([2; 32], [0; 32], 0, vec![], false);
    let accounts = vec![payer.clone(), vault.clone()];
    let d = Deposit::try_from(&10u64.to_le_bytes(), &accounts).unwrap();
    assert_eq!(d.amount, 10);
    // the vault is not the derived address
    assert_eq!(d.check().err(), Some(ProgramError::InvalidAccountData));
    assert_eq!(Deposit::try_from(&0u64.to_le_bytes(), &accounts).err(), Some(ProgramError::InvalidInstructionData));
    assert_eq!(Deposit::try_from(&[1, 2], &accounts).err(), Some(ProgramError::InvalidInstructionData));
    let unsigned = vec![view([1; 32], [0; 32], 0, vec![], false), vault];
    assert_eq!(Deposit::try_from(&10u64.to_le_bytes(), &unsigned).err(), Some(ProgramError::MissingRequiredSignature));
}

#[test]
fn vault_withdraw_plan() {
    let owner = [3u8; 32];
    let (addr, bump) = derive_vault_address(&owner).unwrap();
    let accounts = vec![view(owner, [0; 32], 0, vec![], true), view(addr, [0; 32], 700, vec![], false)];
    let w = Withdraw::try_from(&accounts).unwrap();
    let p = w.plan().unwrap();
    assert_eq!(p.lamports, 700);
    assert_eq!(p.seeds, vec![b"vault".to_vec(), owner.to_vec(), vec![bump]]);
    let empty = vec![view(owner, [0; 32], 0, vec![], true), view(addr, [0; 32], 0, vec![], false)];
    assert_eq!(Withdraw::try_from(&empty).err(), Some(ProgramError::InvalidAccountData));
}

#[test]
fn recorded_escrow_reads_back_at_take() {
    let e = Escrow { seed: 0x0102_0304, maker: [1; 32], mint_a: [2; 32], mint_b: [3; 32], receive: 900, bump: 251 };
    let b = e.to_bytes();
    assert_eq!(&b[8..40], &[1u8; 32]);
    assert_eq!(&b[40..72], &[2u8; 32]);
    assert_eq!(&b[72..104], &[3u8; 32]);
    assert_eq!(u64::from_le_bytes(b[104..112].try_into().unwrap()), 900);
    let seed = u64::from_le_bytes(b[0..8].try_into().unwrap());
    assert_eq!(Escrow::signer_seeds(&e.maker, seed, b[112]), Escrow::signer_seeds(&[1; 32], 0x0102_0304, 251));
    assert_eq!(
        Escrow::signer_seeds(&e.maker, seed, b[112]),
        vec![b"escrow".to_vec(), vec![1u8; 32], 0x0102_0304u64.to_le_bytes().to_vec(), vec![251]]
    );
}

#[test]
fn test_enum_space() {
    println!("EscrowError space {}", core::mem::size_of::<EscrowError>());
    println!("ProgramError space {}", core::mem::size_of::<ProgramError>());
    assert_eq!(core::mem::size_of::<EscrowError>(), 1);
}

#[test]
fn error_texts() {
    assert_eq!(EscrowError::AtaPdaDeriveMismatch.to_display(), "AtaPdaDeriveMismatch");
    assert_eq!(EscrowError::InvalidTokenOwner.to_display(), "InvalidTokenOwner");
}

#[test]
fn test_refund_accounts_size() {
    println!("token account size: {}", token_account_size());
    println!("mint len {}, mint 2022 len {}", mint_size(), token_2022_mint_size());
    assert_eq!(token_account_size(), 165);
    assert_eq!(mint_size(), 82);
    assert_eq!(token_2022_mint_size(), pinocchio_token_2022::state::Mint::BASE_LEN);
}

#[test]
fn make_refuses_zero_deposit() {
    let ix = make_instruction_data(1, 2, 0);
    assert_eq!(MakeData::try_from(&ix[1..]).err(), Some(ProgramError::InvalidInstructionData));
    let accounts = vec![view([0; 32], [0; 32], 0, vec![], true)];
    assert_eq!(Make::try_from(&ix[1..], &accounts).err(), Some(ProgramError::InvalidInstructionData));
    assert_eq!(EscrowError::AtaPdaDeriveMismatch.to_string(), "AtaPdaDeriveMismatch");
}

#[test]
fn vault_dispatch_keeps_account_order() {
    let payer = view([1; 32], [0; 32], 1000, vec![], true);
    let vault = view([2; 32], [0; 32], 0, vec![], false);
    let accounts = vec![payer, vault];
    let mut ix = vec![0u8];
    ix.extend_from_slice(&10u64.to_le_bytes());
    match vault_dispatch(&accounts, &ix).unwrap() {
        VaultInstruction::Deposit(d) => {
            assert_eq!((d.payer.address, d.vault.address, d.amount), ([1; 32], [2; 32], 10));
        }
        VaultInstruction::Withdraw(_) => panic!("expected a deposit"),
    }
    let full = vec![view([1; 32], [0; 32], 0, vec![], true), view([2; 32], [0; 32], 5, vec![], false)];
    match vault_dispatch(&full, &[1u8]).unwrap() {
        VaultInstruction::Withdraw(w) => assert_eq!((w.authority.address, w.vault.address), ([1; 32], [2; 32])),
        VaultInstruction::Deposit(_) => panic!("expected a withdrawal"),
    }
}
