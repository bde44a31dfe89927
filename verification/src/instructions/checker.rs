use vstd::prelude::*;

use crate::account::Account;
use crate::error::FundraiserError;
use crate::instructions::{Cpi, Invocation};
use crate::pda::{fundraiser_seeds, fundraiser_signer_seeds, seeds_view};
use crate::state::fundraiser::Fundraiser;
use vstd::bytes::u64_from_le_bytes;

verus! {

broadcast use vstd::array::group_array_axioms;

// Accounts of `Checker`, by position: 0 the maker, 1 the fundraiser account,
// 2 the vault, 3 the maker's token account, then the token program. No data.

/// Pays out a fundraiser: with at least four accounts (else
/// `InvalidAccountData`) and a fundraiser account that holds a fundraiser
/// (else `InvalidAccountData`), the vault moves the amount the fundraiser
/// records as raised to the maker's token account, on the authority of the
/// fundraiser account, which signs with the seeds of the maker in account 0
/// and the recorded bump.
pub fn checker_transfer(accounts: &[Account]) -> (r: Result<Invocation, FundraiserError>)
    ensures
        accounts@.len() < 4 ==> r == Err::<Invocation, FundraiserError>(
            FundraiserError::InvalidAccountData,
        ),
        accounts@.len() >= 4 && accounts@[1].data@.len() != Fundraiser::LEN ==> r == Err::<
            Invocation,
            FundraiserError,
        >(FundraiserError::InvalidAccountData),
        accounts@.len() >= 4 && accounts@[1].data@.len() == Fundraiser::LEN ==> {
            let data = accounts@[1].data@;
            &&& r matches Ok(inv)
            &&& inv.cpi == (Cpi::Transfer {
                from: 2,
                to: 3,
                authority: 1,
                amount: Fundraiser::current_amount_in(data),
            })
            &&& inv.signer_seeds matches Some(s) && seeds_view(s@) == fundraiser_seeds(
                accounts@[0].address@,
                Fundraiser::bump_in(data),
            )
        },
{
    if accounts.len() < 4 {
        return Err(FundraiserError::InvalidAccountData);
    }
    let state = Fundraiser::from_account_info(&accounts[1])?;
    let seeds = fundraiser_signer_seeds(&accounts[0].address, state.bump);
    let amount = u64_from_le_bytes(state.current_amount.as_slice());
    assert(state.current_amount@ =~= accounts@[1].data@.subrange(72, 80));
    Ok(Invocation {
        cpi: Cpi::Transfer { from: 2, to: 3, authority: 1, amount },
        signer_seeds: Some(seeds),
    })
}

} // verus!
