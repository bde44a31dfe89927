use vstd::prelude::*;

use crate::account::{same_but_lamports, Account};
use crate::error::FundraiserError;
use crate::instructions::{Cpi, Invocation};
use crate::pda::{fundraiser_seeds, fundraiser_signer_seeds, seeds_view};
use crate::state::contributor::Contributor;
use crate::state::fundraiser::Fundraiser;
use vstd::bytes::u64_from_le_bytes;

verus! {

broadcast use vstd::array::group_array_axioms;

// Accounts of `Refund`, by position: 0 the contributor, 1 the vault, 2 the
// fundraiser account, 3 the contributor's record, 4 the contributor's token
// account, then the token program. No data.

/// Whether `refund_transfer` accepts the accounts: five or more, a
/// fundraiser account holding a fundraiser and a record account holding a
/// record.
pub open spec fn refund_accepts(accounts: Seq<Account>) -> bool {
    &&& accounts.len() >= 5
    &&& accounts[2].data@.len() == Fundraiser::LEN
    &&& accounts[3].data@.len() == Contributor::LEN
}

/// `after` is `before` closed: no data, no balance, and the owner reset to
/// the system program (the all-zero address); address and flags unchanged.
pub open spec fn closed(before: Account, after: Account) -> bool {
    &&& after.address == before.address
    &&& after.is_signer == before.is_signer
    &&& after.is_writable == before.is_writable
    &&& after.data@.len() == 0
    &&& after.lamports == 0
    &&& after.owner@ == Seq::new(32, |i: int| 0u8)
}

/// Refunds a contributor: with at least five accounts (else
/// `InvalidAccountData`), a fundraiser account that holds a fundraiser and a
/// record account that holds a record (else `InvalidAccountData`, the
/// fundraiser checked first), the vault moves the amount the record holds to
/// the contributor's token account, on the authority of the fundraiser
/// account, which signs with the seeds of the maker and the bump that the
/// fundraiser records.
pub fn refund_transfer(accounts: &[Account]) -> (r: Result<Invocation, FundraiserError>)
    ensures
        r is Ok <==> refund_accepts(accounts@),
        accounts@.len() < 5 ==> r == Err::<Invocation, FundraiserError>(
            FundraiserError::InvalidAccountData,
        ),
        accounts@.len() >= 5 && (accounts@[2].data@.len() != Fundraiser::LEN || accounts@[3].data@.len()
            != Contributor::LEN) ==> r == Err::<Invocation, FundraiserError>(
            FundraiserError::InvalidAccountData,
        ),
        accounts@.len() >= 5 && accounts@[2].data@.len() == Fundraiser::LEN && accounts@[3].data@.len()
            == Contributor::LEN ==> {
            let fundraiser = accounts@[2].data@;
            &&& r matches Ok(inv)
            &&& inv.cpi == (Cpi::Transfer {
                from: 1,
                to: 4,
                authority: 2,
                amount: Contributor::amount_in(accounts@[3].data@),
            })
            &&& inv.signer_seeds matches Some(s) && seeds_view(s@) == fundraiser_seeds(
                Fundraiser::maker_in(fundraiser),
                Fundraiser::bump_in(fundraiser),
            )
        },
{
    if accounts.len() < 5 {
        return Err(FundraiserError::InvalidAccountData);
    }
    let fundraiser = Fundraiser::from_account_info(&accounts[2])?;
    let seeds = fundraiser_signer_seeds(&fundraiser.maker, fundraiser.bump);
    let record = Contributor::from_account_info(&accounts[3])?;
    let amount = u64_from_le_bytes(record.amount.as_slice());
    assert(fundraiser.maker@ =~= accounts@[2].data@.subrange(0, 32));
    assert(record.amount@ =~= accounts@[3].data@.subrange(32, 40));
    Ok(Invocation {
        cpi: Cpi::Transfer { from: 1, to: 4, authority: 2, amount },
        signer_seeds: Some(seeds),
    })
}

/// Moves the whole balance of the contributor's record to the contributor,
/// before the record is closed. Lamports are conserved: the two balances
/// add up to what they did.
pub fn refund_settle(contributor: &mut Account, record: &mut Account)
    requires
        old(contributor).lamports + old(record).lamports <= u64::MAX,
    ensures
        final(contributor).lamports == old(contributor).lamports + old(record).lamports,
        final(record).lamports == 0,
        final(contributor).lamports + final(record).lamports == old(contributor).lamports + old(
            record,
        ).lamports,
        same_but_lamports(*final(contributor), *old(contributor)),
        same_but_lamports(*final(record), *old(record)),
{
    contributor.lamports = record.lamports + contributor.lamports;
    record.lamports = 0;
}

/// Closes the contributor's record once its balance has moved: its data is
/// emptied, its balance zeroed and its owner reset to the system program,
/// as the runtime's account close does.
pub fn refund_close(record: &mut Account)
    ensures
        closed(*old(record), *final(record)),
{
    record.data = Vec::new();
    record.lamports = 0;
    record.owner = [0u8; 32];
    assert(record.owner@ =~= Seq::new(32, |i: int| 0u8));
}

/// A record is refunded at most once: once closed, a record account is
/// refused by any later refund that names it.
pub proof fn lemma_refund_at_most_once(accounts: Seq<Account>, record: Account)
    requires
        accounts.len() >= 5,
        closed(record, accounts[3]),
    ensures
        !refund_accepts(accounts),
{
}

} // verus!
