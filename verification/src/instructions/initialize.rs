use vstd::prelude::*;

use crate::account::Account;
use crate::bytes::{as_i8s, read_8, read_8_signed, same_address};
use crate::error::FundraiserError;
use crate::instructions::{Cpi, Invocation};
use crate::pda::{derived_address, fundraiser_address, fundraiser_seeds, fundraiser_signer_seeds, seeds_view};
use crate::rent::{minimum_balance, rent_minimum_balance, MAX_LAMPORTS_PER_BYTE};
use crate::state::fundraiser::Fundraiser;
use crate::ID;
use pinocchio::sysvars::rent::Rent;
use vstd::bytes::{spec_u64_from_le_bytes, spec_u64_to_le_bytes, u64_from_le_bytes, u64_to_le_bytes};

verus! {

broadcast use vstd::array::group_array_axioms;

// Accounts of `Initialize`, by position: 0 the maker (signer), 1 the mint to
// raise, 2 the fundraiser account, 3 the vault, 4 the system program, 5 the
// token program. Data: the bump of the fundraiser's address, the goal as a
// little-endian `u64`, the duration in days.

/// What `initialize_begin` reads from an `Initialize` instruction.
pub struct InitializePlan {
    pub bump: u8,
    pub amount_to_raise: u64,
}

/// Checks an `Initialize` instruction before any account is touched: there
/// must be at least six accounts (else `NotEnoughAccountKeys`), the maker
/// must sign (else `IncorrectAuthority`), and the fundraiser account must be
/// the program address of the maker for the bump in the data (else
/// `InvalidAccountData`). Reads the bump and the goal.
pub fn initialize_begin(accounts: &[Account], data: &[u8]) -> (r: Result<InitializePlan, FundraiserError>)
    requires
        accounts@.len() >= 6 && accounts@[0].is_signer ==> data@.len() >= 9,
    ensures
        accounts@.len() < 6 ==> r == Err::<InitializePlan, FundraiserError>(
            FundraiserError::NotEnoughAccountKeys,
        ),
        accounts@.len() >= 6 && !accounts@[0].is_signer ==> r == Err::<
            InitializePlan,
            FundraiserError,
        >(FundraiserError::IncorrectAuthority),
        accounts@.len() >= 6 && accounts@[0].is_signer ==> if accounts@[2].address@
            == derived_address(fundraiser_seeds(accounts@[0].address@, data@[0]), None, ID@) {
            r == Ok::<InitializePlan, FundraiserError>(
                InitializePlan {
                    bump: data@[0],
                    amount_to_raise: spec_u64_from_le_bytes(data@.subrange(1, 9)),
                },
            )
        } else {
            r == Err::<InitializePlan, FundraiserError>(FundraiserError::InvalidAccountData)
        },
{
    if accounts.len() < 6 {
        return Err(FundraiserError::NotEnoughAccountKeys);
    }
    if !accounts[0].is_signer {
        return Err(FundraiserError::IncorrectAuthority);
    }
    let bump = data[0];
    let amount_to_raise = u64_from_le_bytes(vstd::slice::slice_subrange(data, 1, 9));
    let expected = fundraiser_address(&accounts[0].address, bump);
    if !same_address(&expected, &accounts[2].address) {
        return Err(FundraiserError::InvalidAccountData);
    }
    Ok(InitializePlan { bump, amount_to_raise })
}

/// The invocation that creates the fundraiser account with `lamports`: the
/// system program creates account 2, funded by the maker, with `LEN` bytes,
/// owned by this program, signed by the fundraiser's seeds.
pub fn fundraiser_account_invocation(accounts: &[Account], plan: &InitializePlan, lamports: u64) -> (r: Invocation)
    requires
        accounts@.len() >= 6,
    ensures
        r.cpi == (Cpi::CreateAccount {
            from: 0,
            to: 2,
            lamports,
            space: Fundraiser::LEN as u64,
            owner: ID,
        }),
        r.signer_seeds matches Some(s) && seeds_view(s@) == fundraiser_seeds(
            accounts@[0].address@,
            plan.bump,
        ),
{
    let seeds = fundraiser_signer_seeds(&accounts[0].address, plan.bump);
    Invocation {
        cpi: Cpi::CreateAccount { from: 0, to: 2, lamports, space: 90, owner: ID },
        signer_seeds: Some(seeds),
    }
}

/// The invocation that creates the fundraiser account, funded with the
/// rent-exempt balance for `LEN` bytes under `rent`; an error of the rent
/// computation passes through.
pub fn create_fundraiser_account(accounts: &[Account], plan: &InitializePlan, rent: &Rent) -> (r: Result<Invocation, FundraiserError>)
    requires
        accounts@.len() >= 6,
    ensures
        r is Ok <==> rent_minimum_balance(*rent, Fundraiser::LEN) is Some,
        r matches Err(e) ==> e is Runtime,
        r matches Ok(inv) ==> {
            &&& inv.cpi matches Cpi::CreateAccount { from, to, lamports, space, owner }
                && from == 0 && to == 2 && space == Fundraiser::LEN && owner == ID
                && rent_minimum_balance(*rent, Fundraiser::LEN) == Some(lamports)
                && (lamports as int) % (128 + Fundraiser::LEN) == 0
                && (lamports as int) / (128 + Fundraiser::LEN) <= MAX_LAMPORTS_PER_BYTE
            &&& inv.signer_seeds matches Some(s) && seeds_view(s@) == fundraiser_seeds(
                accounts@[0].address@,
                plan.bump,
            )
        },
{
    let lamports = minimum_balance(rent, Fundraiser::LEN)?;
    Ok(fundraiser_account_invocation(accounts, plan, lamports))
}

/// The state of the freshly created fundraiser, and the invocation that
/// creates the vault. The maker and the mint are those of accounts 0 and 1,
/// the goal and the bump are `plan`'s, the start time is the bytes of
/// `unix_timestamp`, the duration is the last byte of the data, and nothing
/// is raised yet. The vault, account 3, is
/// created as the token account of the fundraiser for the mint, paid by the
/// maker, with no signer.
pub fn initialize_finish(
    accounts: &[Account],
    plan: &InitializePlan,
    unix_timestamp: i64,
    data: &[u8],
) -> (r: (Fundraiser, Invocation))
    requires
        accounts@.len() >= 6,
        data@.len() >= 10,
    ensures
        r.0.maker == accounts@[0].address,
        r.0.mint_to_raise == accounts@[1].address,
        r.0.amount_to_raise@ == spec_u64_to_le_bytes(plan.amount_to_raise),
        r.0.current_amount@ == spec_u64_to_le_bytes(0),
        r.0.time_started@ == as_i8s(spec_u64_to_le_bytes(unix_timestamp as u64)),
        r.0.duration == data@[9],
        r.0.bump == plan.bump,
        r.1.cpi == (Cpi::CreateAssociatedTokenAccount {
            funding_account: 0,
            account: 3,
            wallet: 2,
            mint: 1,
            system_program: 4,
            token_program: 5,
        }),
        r.1.signer_seeds is None,
{
    let goal = u64_to_le_bytes(plan.amount_to_raise);
    let raised = u64_to_le_bytes(0);
    let started = u64_to_le_bytes(unix_timestamp as u64);
    let state = Fundraiser {
        maker: accounts[0].address,
        mint_to_raise: accounts[1].address,
        amount_to_raise: read_8(goal.as_slice(), 0),
        current_amount: read_8(raised.as_slice(), 0),
        time_started: read_8_signed(started.as_slice(), 0),
        duration: data[9],
        bump: plan.bump,
    };
    assert(goal@.subrange(0, 8) == goal@);
    assert(raised@.subrange(0, 8) == raised@);
    assert(started@.subrange(0, 8) == started@);
    let vault = Invocation {
        cpi: Cpi::CreateAssociatedTokenAccount {
            funding_account: 0,
            account: 3,
            wallet: 2,
            mint: 1,
            system_program: 4,
            token_program: 5,
        },
        signer_seeds: None,
    };
    (state, vault)
}

/// What `Initialize` stores lets the fundraiser account sign later. When
/// its address is the one `initialize_begin` checked, derived from the maker
/// and the bump, the fundraiser that `initialize_finish` returns records that
/// maker and that bump; so the seeds with which `refund_transfer` signs (the
/// recorded maker and bump), and those of `checker_transfer` for that maker,
/// derive the fundraiser account's own address.
pub proof fn lemma_stored_seeds_derive_the_fundraiser(
    accounts: Seq<Account>,
    plan: InitializePlan,
    f: Fundraiser,
)
    requires
        accounts.len() >= 6,
        accounts[2].address@ == derived_address(
            fundraiser_seeds(accounts[0].address@, plan.bump),
            None,
            ID@,
        ),
        f.maker == accounts[0].address,
        f.bump == plan.bump,
    ensures
        derived_address(
            fundraiser_seeds(Fundraiser::maker_in(f.layout()), Fundraiser::bump_in(f.layout())),
            None,
            ID@,
        ) == accounts[2].address@,
{
    assert(Fundraiser::maker_in(f.layout()) =~= f.maker@);
    assert(Fundraiser::bump_in(f.layout()) == f.bump);
}

/// After `Initialize`, the fundraiser account's bytes 64 to 72 are the
/// goal's bytes of the instruction data (bytes 1 to 9), and read as a
/// little-endian `u64` they give back the goal: for every instruction data
/// and every fundraiser that `initialize_finish` returns for the plan that
/// `initialize_begin` read from it.
pub proof fn lemma_initialize_stores_goal(data: Seq<u8>, plan: InitializePlan, f: Fundraiser)
    requires
        data.len() >= 10,
        plan.amount_to_raise == spec_u64_from_le_bytes(data.subrange(1, 9)),
        f.amount_to_raise@ == spec_u64_to_le_bytes(plan.amount_to_raise),
    ensures
        f.layout().subrange(64, 72) == data.subrange(1, 9),
        spec_u64_from_le_bytes(f.layout().subrange(64, 72)) == plan.amount_to_raise,
{
    f.lemma_layout_offsets();
    lemma_goal_bytes_round_trip(data);
    vstd::bytes::lemma_auto_spec_u64_to_from_le_bytes();
}

/// The goal that `initialize_finish` stores is the very bytes that the
/// instruction data holds after the bump: what `Initialize` writes of the
/// goal reads back as written.
pub proof fn lemma_goal_bytes_round_trip(data: Seq<u8>)
    requires
        data.len() >= 9,
    ensures
        spec_u64_to_le_bytes(spec_u64_from_le_bytes(data.subrange(1, 9))) == data.subrange(1, 9),
{
    vstd::bytes::lemma_auto_spec_u64_to_from_le_bytes();
}

} // verus!
