use vstd::prelude::*;

use crate::account::{same_but_data, Account};
use crate::bytes::read_8;
use crate::error::FundraiserError;
use crate::instructions::{Cpi, Invocation};
use crate::state::contributor::Contributor;
use vstd::bytes::{
    lemma_auto_spec_u64_to_from_le_bytes, spec_u64_from_le_bytes, spec_u64_to_le_bytes,
    u64_from_le_bytes, u64_to_le_bytes,
};

verus! {

broadcast use vstd::array::group_array_axioms;

// Accounts of `Contribute`, by position and exactly six: 0 the contributor
// (signer), 1 the fundraiser account, 2 the vault, 3 the contributor's token
// account, 4 the contributor's record, 5 the token program. Data: the amount
// as a little-endian `u64`.

/// Starts a contribution: with exactly six accounts (else
/// `InvalidAccountData`) and the contributor signing (else
/// `IncorrectAuthority`), the contributor's token account moves the amount in
/// the data to the vault on the contributor's authority, with no program
/// signer. Returns that invocation and the amount.
pub fn contribute_transfer(accounts: &[Account], data: &[u8]) -> (r: Result<(Invocation, u64), FundraiserError>)
    requires
        accounts@.len() == 6 && accounts@[0].is_signer ==> data@.len() >= 8,
    ensures
        accounts@.len() != 6 ==> r == Err::<(Invocation, u64), FundraiserError>(
            FundraiserError::InvalidAccountData,
        ),
        accounts@.len() == 6 && !accounts@[0].is_signer ==> r == Err::<
            (Invocation, u64),
            FundraiserError,
        >(FundraiserError::IncorrectAuthority),
        accounts@.len() == 6 && accounts@[0].is_signer ==> {
            let amount = spec_u64_from_le_bytes(data@.subrange(0, 8));
            &&& r matches Ok((inv, a))
            &&& a == amount
            &&& inv.cpi == (Cpi::Transfer { from: 3, to: 2, authority: 0, amount })
            &&& inv.signer_seeds is None
        },
{
    if accounts.len() != 6 {
        return Err(FundraiserError::InvalidAccountData);
    }
    if !accounts[0].is_signer {
        return Err(FundraiserError::IncorrectAuthority);
    }
    let amount = u64_from_le_bytes(vstd::slice::slice_subrange(data, 0, 8));
    Ok((Invocation { cpi: Cpi::Transfer { from: 3, to: 2, authority: 0, amount }, signer_seeds: None }, amount))
}

/// The data of a record after `amount` is added to the amount it holds.
pub open spec fn with_contribution(data: Seq<u8>, amount: u64) -> Seq<u8> {
    data.subrange(0, 32) + spec_u64_to_le_bytes((Contributor::amount_in(data) + amount) as u64)
        + data.subrange(40, 41)
}

/// Contributions accumulate: adding `a` and then `b` to a record leaves it
/// as adding `a + b` does, holding the old amount plus `a` plus `b`.
pub proof fn lemma_contributions_accumulate(data: Seq<u8>, a: u64, b: u64)
    requires
        data.len() == Contributor::LEN,
        Contributor::amount_in(data) + a + b <= u64::MAX,
    ensures
        with_contribution(data, a).len() == Contributor::LEN,
        Contributor::amount_in(with_contribution(data, a)) == Contributor::amount_in(data) + a,
        with_contribution(with_contribution(data, a), b) == with_contribution(data, (a + b) as u64),
        Contributor::amount_in(with_contribution(with_contribution(data, a), b))
            == Contributor::amount_in(data) + a + b,
{
    lemma_auto_spec_u64_to_from_le_bytes();
    let once = with_contribution(data, a);
    let sum = (Contributor::amount_in(data) + a) as u64;
    assert(once.subrange(32, 40) =~= spec_u64_to_le_bytes(sum));
    assert(once.subrange(0, 32) =~= data.subrange(0, 32));
    assert(once.subrange(40, 41) =~= data.subrange(40, 41));
    let twice = with_contribution(once, b);
    let total = (Contributor::amount_in(data) + a + b) as u64;
    assert(twice.subrange(32, 40) =~= spec_u64_to_le_bytes(total));
}

/// Adds `amount` to the amount that a contributor's record holds. A record
/// account whose data is not a record is refused with `InvalidAccountData`,
/// and a sum over `u64::MAX` with `InvalidInstructionData`; either way the
/// account is unchanged. Otherwise only the amount's bytes change, to the
/// sum: contributions accumulate.
pub fn contribute_record(record: &mut Account, amount: u64) -> (r: Result<(), FundraiserError>)
    ensures
        old(record).data@.len() != Contributor::LEN ==> r == Err::<(), FundraiserError>(
            FundraiserError::InvalidAccountData,
        ),
        old(record).data@.len() == Contributor::LEN && Contributor::amount_in(old(record).data@)
            + amount > u64::MAX ==> r == Err::<(), FundraiserError>(
            FundraiserError::InvalidInstructionData,
        ),
        r is Err ==> *final(record) == *old(record),
        r is Ok ==> {
            let sum = (Contributor::amount_in(old(record).data@) + amount) as u64;
            &&& old(record).data@.len() == Contributor::LEN
            &&& Contributor::amount_in(old(record).data@) + amount <= u64::MAX
            &&& final(record).data@ == with_contribution(old(record).data@, amount)
            &&& Contributor::amount_in(final(record).data@) == sum
            &&& same_but_data(*final(record), *old(record))
        },
        r is Ok <==> (old(record).data@.len() == Contributor::LEN && Contributor::amount_in(
            old(record).data@,
        ) + amount <= u64::MAX),
{
    let mut state = Contributor::from_account_info(record)?;
    let current_amount = u64_from_le_bytes(state.amount.as_slice());
    assert(state.amount@ =~= record.data@.subrange(32, 40));
    let new_amount = match current_amount.checked_add(amount) {
        Some(v) => v,
        None => {
            return Err(FundraiserError::InvalidInstructionData);
        },
    };
    let bytes = u64_to_le_bytes(new_amount);
    state.amount = read_8(bytes.as_slice(), 0);
    assert(bytes@.subrange(0, 8) =~= bytes@);
    state.store(record);
    proof {
        lemma_auto_spec_u64_to_from_le_bytes();
        assert(record.data@.subrange(32, 40) =~= spec_u64_to_le_bytes(new_amount));
        assert(record.data@ =~= old(record).data@.subrange(0, 32) + spec_u64_to_le_bytes(
            new_amount,
        ) + old(record).data@.subrange(40, 41));
    }
    Ok(())
}

} // verus!
