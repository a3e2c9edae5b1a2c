use solana_lessons::account::AccountView;
use solana_lessons::amm::deposit::{Deposit, DepositInstructionData};
use solana_lessons::amm::errors::{to_program_error, CustomError};
use solana_lessons::amm::helper::{check_signer, load};
use solana_lessons::amm::initialize::{
    InitializeData, INITIALIZE_DATA_LEN, INITIALIZE_DATA_LEN_WITHOUT_AUTHORITY,
};
use solana_lessons::amm::state::{AmmState, Config, CONFIG_LEN, PRECISION};
use solana_lessons::amm::swap::SwapData;
use solana_lessons::amm::withdraw::WithdrawData;
use solana_lessons::program_error::ProgramError;

fn account(owner: [u8; 32], data: Vec<u8>, is_signer: bool) -> AccountView {
    AccountView { address: [9u8; 32], owner, lamports: 0, data, is_signer, is_writable: true }
}

fn init_bytes(with_authority: bool) -> Vec<u8> {
    let mut b = Vec::new();
    b.extend_from_slice(&7u64.to_le_bytes());
    b.extend_from_slice(&30u16.to_le_bytes());
    b.extend_from_slice(&[1u8; 32]);
    b.extend_from_slice(&[2u8; 32]);
    b.push(254);
    b.push(253);
    if with_authority {
        b.extend_from_slice(&[3u8; 32]);
    }
    b
}

#[test]
fn test_initialize_data() {
    println!("initialize data size :{}", INITIALIZE_DATA_LEN);
    assert_eq!(std::mem::size_of::<[u8; 1]>(), std::mem::size_of::<u8>());
}

#[test]
fn test_init_space() {
    println!("init space :{}", INITIALIZE_DATA_LEN);
    assert_eq!(INITIALIZE_DATA_LEN, 108);
    assert_eq!(INITIALIZE_DATA_LEN_WITHOUT_AUTHORITY, 76);
}

#[test]
fn test_space_arr() {
    println!("arr size of [u8;1]: {}", std::mem::size_of::<[u8; 1]>());
    assert_eq!(std::mem::size_of::<[u8; 1]>(), 1);
}

#[test]
fn initialize_data_with_and_without_authority() {
    let d = InitializeData::try_from(&init_bytes(true)).unwrap();
    assert_eq!(d.seed, 7);
    assert_eq!(d.fee, 30);
    assert_eq!(d.mint_x, [1u8; 32]);
    assert_eq!(d.mint_y, [2u8; 32]);
    assert_eq!(d.config_bump, [254]);
    assert_eq!(d.lp_bump, [253]);
    assert_eq!(d.authority, [3u8; 32]);
    let d = InitializeData::try_from(&init_bytes(false)).unwrap();
    assert_eq!(d.authority, [0u8; 32]);
    assert_eq!(d.seed, 7);
}

#[test]
fn initialize_data_wrong_length() {
    let r = InitializeData::try_from(&[0u8; 77]);
    assert_eq!(r.err(), Some(ProgramError::Custom(19)));
}

#[test]
fn error_codes_follow_declaration_order() {
    assert_eq!(to_program_error(CustomError::AtaOwnerMismatch), ProgramError::Custom(0));
    assert_eq!(to_program_error(CustomError::Expired), ProgramError::Custom(11));
    assert_eq!(to_program_error(CustomError::InvalidAmmState), ProgramError::Custom(15));
    assert_eq!(to_program_error(CustomError::SwapFailed), ProgramError::Custom(24));
    assert_eq!(CustomError::XYExceedMax.code(), 16);
}

#[test]
fn amm_state_codes() {
    assert_eq!(AmmState::try_from(0).unwrap(), AmmState::Uninitialized);
    assert_eq!(AmmState::try_from(1).unwrap(), AmmState::Initialized);
    assert_eq!(AmmState::try_from(2).unwrap(), AmmState::Disable);
    assert_eq!(AmmState::try_from(3).unwrap(), AmmState::WithdrawOnly);
    assert_eq!(AmmState::try_from(4).err(), Some(ProgramError::Custom(15)));
    for s in [AmmState::Uninitialized, AmmState::Initialized, AmmState::Disable, AmmState::WithdrawOnly] {
        assert_eq!(AmmState::try_from(s.code()).unwrap(), s);
    }
}

#[test]
fn precision_and_config_length() {
    assert_eq!(PRECISION, 10u32.pow(6));
    assert_eq!(CONFIG_LEN, 110);
}

#[test]
fn config_set_inner_stores_seed_big_endian() {
    let mut c = Config::from_bytes(&[0u8; 110]);
    c.set_inner(1, 25, [4u8; 32], [5u8; 32], [6], [7], [8u8; 32]);
    assert!(c.is_match_state(AmmState::Initialized));
    assert_eq!(c.get_state().unwrap(), AmmState::Initialized);
    assert_eq!(c.fee(), 25);
    assert_eq!(*c.mint_x(), [4u8; 32]);
    assert_eq!(*c.mint_y(), [5u8; 32]);
    assert_eq!(*c.authority(), [8u8; 32]);
    // the seed is stored big-endian and read back little-endian
    assert_eq!(c.seed(), 1u64.swap_bytes());
    let mut p = Config::from_bytes(&[0u8; 110]);
    p.set_inner(0x0101_0101_0101_0101, 0, [0; 32], [0; 32], [0], [0], [0; 32]);
    assert_eq!(p.seed(), 0x0101_0101_0101_0101);
}

#[test]
fn config_bytes_round_trip() {
    let mut c = Config::from_bytes(&[0u8; 110]);
    c.set_inner(99, 300, [4u8; 32], [5u8; 32], [6], [7], [8u8; 32]);
    let b = c.to_bytes();
    assert_eq!(b.len(), 110);
    assert_eq!(b[0], 1);
    assert_eq!(b[9], 0);
    let back = Config::from_bytes(&b);
    assert_eq!(back.to_bytes(), b);
    assert_eq!(back.fee(), 300);
    assert_eq!(back.seed(), c.seed());
}

#[test]
fn config_load_checks_length_and_owner() {
    let other = [1u8; 32];
    let acc = account(other, vec![0u8; 110], false);
    assert!(Config::load(&acc).is_ok());
    let short = account(other, vec![0u8; 109], false);
    assert_eq!(Config::load(&short).err(), Some(ProgramError::InvalidAccountData));
    // an account owned by the program itself is refused
    let own = solana_address::Address::from_str_const("22222222222222222222222222222222222222222222").to_bytes();
    let owned = account(own, vec![0u8; 110], false);
    assert_eq!(Config::load(&owned).err(), Some(ProgramError::InvalidAccountOwner));
    assert_eq!(load(&owned, 110).err(), Some(ProgramError::InvalidAccountOwner));
}

#[test]
fn signer_check() {
    assert!(check_signer(&account([0; 32], vec![], true)).is_ok());
    assert_eq!(check_signer(&account([0; 32], vec![], false)).err(), Some(ProgramError::MissingRequiredSignature));
}

#[test]
fn deposit_data_layout() {
    let mut b = Vec::new();
    b.extend_from_slice(&10u64.to_le_bytes());
    b.extend_from_slice(&20u64.to_le_bytes());
    b.extend_from_slice(&30u64.to_le_bytes());
    b.extend_from_slice(&(-5i64).to_le_bytes());
    let d = DepositInstructionData::try_from(&b).unwrap();
    assert_eq!((d.amount, d.max_x, d.max_y, d.expiration), (10, 20, 30, -5));
    assert_eq!(DepositInstructionData::try_from(&b[..31]).err(), Some(ProgramError::Custom(18)));
}

#[test]
fn swap_and_withdraw_data_lengths() {
    assert!(SwapData::try_from(&[0u8; 25]).is_ok());
    assert_eq!(WithdrawData::try_from(&[0u8; 3]).err(), Some(ProgramError::Custom(17)));
}

#[test]
fn deposit_needs_accounts() {
    let b = vec![0u8; 32];
    let accounts: Vec<AccountView> = vec![];
    assert_eq!(Deposit::try_from(&b, &accounts).err(), Some(ProgramError::NotEnoughAccountKeys));
}

#[test]
fn custom_error_text() {
    assert_eq!(CustomError::Expired.to_display(), "CustomError: Expired");
    assert_eq!(CustomError::SwapFailed.to_display(), "CustomError: SwapFailed");
}

#[test]
fn custom_error_string() {
    assert_eq!(CustomError::Expired.to_string(), "CustomError: Expired");
}
