use p_fundraiser::instructions::checker::checker_transfer;
use p_fundraiser::instructions::contribute::{contribute_record, contribute_transfer};
use p_fundraiser::instructions::create_contributor::{
    create_contributor_begin, create_contributor_finish, create_record_account,
};
use p_fundraiser::instructions::initialize::{
    create_fundraiser_account, initialize_begin, initialize_finish,
};
use p_fundraiser::instructions::refund::{refund_close, refund_settle, refund_transfer};
use p_fundraiser::pda::fundraiser_address;
use p_fundraiser::rent::minimum_balance;
use p_fundraiser::{
    parse_instruction, Account, Contributor, Cpi, Fundraiser, FundraiserError,
    FundraiserInstructions, Invocation, ID,
};
use pinocchio::sysvars::rent::Rent;

const LAMPORTS_PER_SOL: u64 = 1_000_000_000;
const SYSTEM_PROGRAM: [u8; 32] = [0u8; 32];
const TOKEN_PROGRAM: [u8; 32] = [6u8; 32];

fn key(n: u8) -> [u8; 32] {
    let mut k = [0u8; 32];
    k[0] = n;
    k[31] = 200;
    k
}

fn account(address: [u8; 32], is_signer: bool, lamports: u64, data: Vec<u8>) -> Account {
    Account { address, owner: SYSTEM_PROGRAM, lamports, is_signer, is_writable: true, data }
}

fn default_rent() -> Rent {
    Rent::from_bytes(&6960u64.to_le_bytes()).unwrap()
}

fn fundraiser_pda(maker: &[u8; 32], bump: u8) -> [u8; 32] {
    pinocchio_pubkey::derive_address_const(&[b"fundraiser".as_slice(), maker, &[bump]], None, &ID)
}

fn seeds_of(inv: &Invocation) -> Vec<Vec<u8>> {
    inv.signer_seeds.clone().expect("the invocation is signed")
}

/// Applies a `CreateAccount` invocation to the model accounts, as the system
/// program would.
fn apply_create_account(accounts: &mut [Account], inv: &Invocation) {
    match inv.cpi {
        Cpi::CreateAccount { from, to, lamports, space, owner } => {
            accounts[from].lamports -= lamports;
            accounts[to].lamports += lamports;
            accounts[to].owner = owner;
            accounts[to].data = vec![0u8; space as usize];
        }
        _ => panic!("not a CreateAccount"),
    }
}

struct FundraiserSetup {
    accounts: Vec<Account>,
    bump: u8,
}

fn setup_initialize_with_discriminator(
    discriminator: u8,
    amount_to_raise: u64,
    duration: u8,
) -> FundraiserSetup {
    let maker = key(1);
    let bump = 254u8;
    let fundraiser = fundraiser_pda(&maker, bump);
    let mut accounts = vec![
        account(maker, true, 10 * LAMPORTS_PER_SOL, vec![]),
        account(key(2), false, 0, vec![0u8; 82]),
        account(fundraiser, false, 0, vec![]),
        account(key(3), false, 0, vec![]),
        account(SYSTEM_PROGRAM, false, 1, vec![]),
        account(TOKEN_PROGRAM, false, 1, vec![]),
        account(key(4), false, 1, vec![]),
    ];
    let data = [
        vec![discriminator],
        vec![bump],
        amount_to_raise.to_le_bytes().to_vec(),
        vec![duration],
    ]
    .concat();

    let (instruction, rest) = parse_instruction(&ID, &data).unwrap();
    assert_eq!(instruction, FundraiserInstructions::Initialize);
    let plan = initialize_begin(&accounts, rest).unwrap();
    assert_eq!(plan.bump, bump);
    assert_eq!(plan.amount_to_raise, amount_to_raise);
    let create = create_fundraiser_account(&accounts, &plan, &default_rent()).unwrap();
    apply_create_account(&mut accounts, &create);
    Fundraiser::from_account_info(&accounts[2]).unwrap();
    let (state, vault) = initialize_finish(&accounts, &plan, 0, rest);
    state.store(&mut accounts[2]);
    match vault.cpi {
        Cpi::CreateAssociatedTokenAccount { funding_account, account, wallet, mint, .. } => {
            assert_eq!((funding_account, account, wallet, mint), (0, 3, 2, 1));
        }
        _ => panic!("the vault is an associated token account"),
    }
    accounts[3].data = vec![0u8; 165];
    FundraiserSetup { accounts, bump }
}

fn setup_initialize(amount_to_raise: u64, duration: u8) -> FundraiserSetup {
    setup_initialize_with_discriminator(0, amount_to_raise, duration)
}

struct ContributorSetup {
    fundraiser: FundraiserSetup,
    /// contributor, fundraiser, vault, contributor's token account, record, token program
    accounts: Vec<Account>,
}

fn setup_create_contributor(
    amount_to_raise: u64,
    duration: u8,
    _contribute_amount: u64,
) -> ContributorSetup {
    let s = setup_initialize(amount_to_raise, duration);
    let contributor = account(key(9), true, 10 * LAMPORTS_PER_SOL, vec![]);
    let record = account(key(10), false, 0, vec![]);
    let mut create_accounts = vec![
        contributor,
        account(s.accounts[2].address, false, s.accounts[2].lamports, s.accounts[2].data.clone()),
        record,
        account(SYSTEM_PROGRAM, false, 1, vec![]),
    ];
    let data = vec![1u8, 253, 0, 0, 0, 0, 0, 0];
    let (instruction, rest) = parse_instruction(&ID, &data).unwrap();
    assert_eq!(instruction, FundraiserInstructions::CreateContributor);
    let bump = create_contributor_begin(&create_accounts, rest).unwrap();
    assert_eq!(bump, 253);
    let create = create_record_account(&create_accounts, bump, &default_rent()).unwrap();
    apply_create_account(&mut create_accounts, &create);
    create_contributor_finish(&mut create_accounts[2], bump);
    let record = Contributor::from_account_info(&create_accounts[2]).unwrap();
    assert_eq!(record.address, key(10));
    assert_eq!(record.amount, [0u8; 8]);
    assert_eq!(record.bump, 253);

    let accounts = vec![
        create_accounts.remove(0),
        account(s.accounts[2].address, false, s.accounts[2].lamports, s.accounts[2].data.clone()),
        account(s.accounts[3].address, false, 0, s.accounts[3].data.clone()),
        account(key(11), false, 0, vec![0u8; 165]),
        create_accounts.remove(1),
        account(TOKEN_PROGRAM, false, 1, vec![]),
    ];
    ContributorSetup { fundraiser: s, accounts }
}

fn setup_contribute(amount_to_raise: u64, duration: u8, contribute_amount: u64) -> ContributorSetup {
    let mut s = setup_create_contributor(amount_to_raise, duration, contribute_amount);
    let mut data = vec![2u8];
    data.extend_from_slice(&contribute_amount.to_le_bytes());
    let (instruction, rest) = parse_instruction(&ID, &data).unwrap();
    assert_eq!(instruction, FundraiserInstructions::Contribute);
    let (transfer, amount) = contribute_transfer(&s.accounts, rest).unwrap();
    assert_eq!(amount, contribute_amount);
    match transfer.cpi {
        Cpi::Transfer { from, to, authority, amount } => {
            assert_eq!((from, to, authority, amount), (3, 2, 0, contribute_amount));
        }
        _ => panic!("a contribution is a token transfer"),
    }
    assert!(transfer.signer_seeds.is_none());
    contribute_record(&mut s.accounts[4], amount).unwrap();
    s
}

#[test]
fn test_initialize() {
    let s = setup_initialize(1_000_000_000, 7);
    let state = Fundraiser::from_account_info(&s.accounts[2]).unwrap();
    assert_eq!(state.maker, key(1));
    assert_eq!(state.mint_to_raise, key(2));
    assert_eq!(u64::from_le_bytes(state.amount_to_raise), 1_000_000_000);
    assert_eq!(u64::from_le_bytes(state.current_amount), 0);
    assert_eq!(state.time_started, [0i8; 8]);
    assert_eq!(state.duration, 7);
    assert_eq!(state.bump, s.bump);
    assert_eq!(fundraiser_address(&state.maker, state.bump), s.accounts[2].address);
    assert_eq!(s.accounts[2].lamports, (128 + 90) * 6960);
    assert_eq!(s.accounts[2].owner, ID);
    println!("{:<12} | {:>6} bump", "initialize", s.bump);
}

#[test]
fn test_create_contributor() {
    let s = setup_create_contributor(1_000_000_000, 7, 500_000_000);
    assert_eq!(s.accounts[4].data.len(), Contributor::LEN);
    assert_eq!(s.accounts[4].lamports, (128 + 41) * 6960);
    assert_eq!(s.accounts[4].owner, ID);
    println!("{:<20} | {:>6} bytes", "create_contributor", s.accounts[4].data.len());
}

#[test]
fn test_contribute() {
    let s = setup_contribute(1_000_000_000, 7, 500_000_000);
    let record = Contributor::from_account_info(&s.accounts[4]).unwrap();
    assert_eq!(u64::from_le_bytes(record.amount), 500_000_000);
    println!("{:<20} | {:>6} recorded", "contribute", u64::from_le_bytes(record.amount));
}

#[test]
fn test_checker() {
    let amount = 1_000_000_000u64;
    let s = setup_contribute(amount, 7, amount);
    let maker_ata = account(key(12), false, 0, vec![0u8; 165]);
    let accounts = vec![
        account(key(1), true, LAMPORTS_PER_SOL, vec![]),
        account(s.accounts[1].address, false, s.accounts[1].lamports, s.accounts[1].data.clone()),
        account(s.accounts[2].address, false, 0, vec![0u8; 165]),
        maker_ata,
        account(TOKEN_PROGRAM, false, 1, vec![]),
    ];
    let (instruction, rest) = parse_instruction(&ID, &[3u8]).unwrap();
    assert_eq!(instruction, FundraiserInstructions::Checker);
    assert!(rest.is_empty());
    let inv = checker_transfer(&accounts).unwrap();
    // Contributions are recorded per contributor, not in the fundraiser, so
    // the fundraiser still records nothing raised.
    match inv.cpi {
        Cpi::Transfer { from, to, authority, amount } => {
            assert_eq!((from, to, authority, amount), (2, 3, 1, 0));
        }
        _ => panic!("the payout is a token transfer"),
    }
    let seeds = seeds_of(&inv);
    assert_eq!(seeds, vec![b"fundraiser".to_vec(), key(1).to_vec(), vec![s.fundraiser.bump]]);
    // The seeds derive the fundraiser account, so it can sign the payout.
    assert_eq!(fundraiser_address(&key(1), seeds[2][0]), accounts[1].address);
    println!("{:<20} | {:>6} paid", "checker", 0);
}

#[test]
fn test_refund() {
    let goal = 1_000_000_000u64;
    let contributed = 500_000_000u64;
    let s = setup_contribute(goal, 1, contributed);
    let _clock_unix_timestamp: i64 = 86401;
    let mut accounts = vec![
        account(key(9), true, 10 * LAMPORTS_PER_SOL, vec![]),
        account(s.accounts[2].address, false, 0, vec![0u8; 165]),
        account(s.accounts[1].address, false, s.accounts[1].lamports, s.accounts[1].data.clone()),
        account(s.accounts[4].address, false, s.accounts[4].lamports, s.accounts[4].data.clone()),
        account(s.accounts[3].address, false, 0, vec![0u8; 165]),
        account(TOKEN_PROGRAM, false, 1, vec![]),
    ];
    let (instruction, _) = parse_instruction(&ID, &[4u8]).unwrap();
    assert_eq!(instruction, FundraiserInstructions::Refund);
    let inv = refund_transfer(&accounts).unwrap();
    match inv.cpi {
        Cpi::Transfer { from, to, authority, amount } => {
            assert_eq!((from, to, authority, amount), (1, 4, 2, contributed));
        }
        _ => panic!("the refund is a token transfer"),
    }
    assert_eq!(seeds_of(&inv), vec![b"fundraiser".to_vec(), key(1).to_vec(), vec![254u8]]);
    assert_eq!(fundraiser_address(&key(1), 254), accounts[2].address);
    let before = accounts[0].lamports + accounts[3].lamports;
    let (left, right) = accounts.split_at_mut(3);
    refund_settle(&mut left[0], &mut right[0]);
    assert_eq!(accounts[3].lamports, 0);
    assert_eq!(accounts[0].lamports, before);
    refund_close(&mut accounts[3]);
    assert!(accounts[3].data.is_empty());
    assert_eq!(accounts[3].owner, [0u8; 32]);
    // A closed record cannot be refunded again.
    assert_eq!(refund_transfer(&accounts).err(), Some(FundraiserError::InvalidAccountData));
    println!("{:<20} | {:>6} refunded", "refund", contributed);
}
