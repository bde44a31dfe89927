use vstd::prelude::*;

use crate::account::{same_but_data, Account};
use crate::error::FundraiserError;
use crate::instructions::{Cpi, Invocation};
use crate::pda::{contributor_seeds, contributor_signer_seeds, seeds_view};
use crate::rent::{minimum_balance, rent_minimum_balance, MAX_LAMPORTS_PER_BYTE};
use crate::state::contributor::Contributor;
use crate::ID;
use pinocchio::sysvars::rent::Rent;

verus! {

broadcast use vstd::array::group_array_axioms;

// Accounts of `CreateContributor`, by position: 0 the contributor, 1 the
// fundraiser account, 2 the record account, then the system program. Data:
// the bump of the record's address.

/// Starts the creation of a contributor's record: with at least three
/// accounts (else `InvalidAccountData`), reads the bump.
pub fn create_contributor_begin(accounts: &[Account], data: &[u8]) -> (r: Result<u8, FundraiserError>)
    requires
        accounts@.len() >= 3 ==> data@.len() >= 1,
    ensures
        accounts@.len() < 3 ==> r == Err::<u8, FundraiserError>(FundraiserError::InvalidAccountData),
        accounts@.len() >= 3 ==> r == Ok::<u8, FundraiserError>(data@[0]),
{
    if accounts.len() < 3 {
        return Err(FundraiserError::InvalidAccountData);
    }
    Ok(data[0])
}

/// The invocation that creates the record with `lamports`: the system
/// program creates account 2, funded by the contributor, with `LEN` bytes,
/// owned by this program, signed by the seeds of the fundraiser in account 1,
/// the contributor in account 0 and `bump`.
pub fn record_account_invocation(accounts: &[Account], bump: u8, lamports: u64) -> (r: Invocation)
    requires
        accounts@.len() >= 3,
    ensures
        r.cpi == (Cpi::CreateAccount {
            from: 0,
            to: 2,
            lamports,
            space: Contributor::LEN as u64,
            owner: ID,
        }),
        r.signer_seeds matches Some(s) && seeds_view(s@) == contributor_seeds(
            accounts@[1].address@,
            accounts@[0].address@,
            bump,
        ),
{
    let seeds = contributor_signer_seeds(&accounts[1].address, &accounts[0].address, bump);
    Invocation {
        cpi: Cpi::CreateAccount { from: 0, to: 2, lamports, space: 41, owner: ID },
        signer_seeds: Some(seeds),
    }
}

/// The invocation that creates the record, funded with the rent-exempt
/// balance for `LEN` bytes under `rent`; an error of the rent computation
/// passes through.
pub fn create_record_account(accounts: &[Account], bump: u8, rent: &Rent) -> (r: Result<Invocation, FundraiserError>)
    requires
        accounts@.len() >= 3,
    ensures
        r is Ok <==> rent_minimum_balance(*rent, Contributor::LEN) is Some,
        r matches Err(e) ==> e is Runtime,
        r matches Ok(inv) ==> {
            &&& inv.cpi matches Cpi::CreateAccount { from, to, lamports, space, owner }
                && from == 0 && to == 2 && space == Contributor::LEN && owner == ID
                && rent_minimum_balance(*rent, Contributor::LEN) == Some(lamports)
                && (lamports as int) % (128 + Contributor::LEN) == 0
                && (lamports as int) / (128 + Contributor::LEN) <= MAX_LAMPORTS_PER_BYTE
            &&& inv.signer_seeds matches Some(s) && seeds_view(s@) == contributor_seeds(
                accounts@[1].address@,
                accounts@[0].address@,
                bump,
            )
        },
{
    let lamports = minimum_balance(rent, Contributor::LEN)?;
    Ok(record_account_invocation(accounts, bump, lamports))
}

/// Fills a freshly created record: its address field is the record
/// account's own address, nothing is contributed yet, and the bump is
/// `bump`. The record is written over the first `LEN` bytes of the data.
pub fn create_contributor_finish(record: &mut Account, bump: u8)
    requires
        old(record).data@.len() >= Contributor::LEN,
    ensures
        final(record).data@ == old(record).address@ + Seq::new(8, |i: int| 0u8) + seq![bump]
            + old(record).data@.subrange(Contributor::LEN as int, old(record).data@.len() as int),
        Contributor::amount_in(final(record).data@) == 0,
        same_but_data(*final(record), *old(record)),
{
    let state = Contributor { address: record.address, amount: [0u8; 8], bump };
    state.store(record);
    assert(state.amount@ =~= Seq::new(8, |i: int| 0u8));
    proof {
        vstd::bytes::lemma_auto_spec_u64_to_from_le_bytes();
        assert(record.data@.subrange(32, 40) =~= Seq::new(8, |i: int| 0u8));
        assert(vstd::bytes::spec_u64_to_le_bytes(0) =~= Seq::new(8, |i: int| 0u8)) by {
            vstd::bytes::spec_u64_to_le_bytes_to_open(0);
            assert(0u64 & 0xff == 0 && (0u64 >> 8) & 0xff == 0 && (0u64 >> 16) & 0xff == 0 && (0u64 >> 24) & 0xff == 0
                && (0u64 >> 32) & 0xff == 0 && (0u64 >> 40) & 0xff == 0 && (0u64 >> 48) & 0xff == 0
                && (0u64 >> 56) & 0xff == 0) by (bit_vector);
        }
    }
}

} // verus!
