use vstd::prelude::*;

use crate::error::FundraiserError;
use pinocchio::error::ProgramError;
use pinocchio::sysvars::rent::Rent;

verus! {

/// The runtime's rent sysvar. Its rate is private to it; values of it only
/// pass through this library.
#[verifier::external_type_specification]
#[verifier::external_body]
pub struct ExRent(pinocchio::sysvars::rent::Rent);

/// The largest rate per byte that `Rent::try_minimum_balance` accepts.
pub const MAX_LAMPORTS_PER_BYTE: u64 = 1_759_197_129_867;

/// What `Rent::try_minimum_balance` returns for `rent` and `data_len`: the
/// rent-exempt balance, `(128 + data_len)` times the rent's rate per byte, or
/// nothing where it refuses.
pub uninterp spec fn rent_minimum_balance(rent: Rent, data_len: usize) -> Option<u64>;

/// Calls `Rent::try_minimum_balance`: the balance that makes an account of
/// `data_len` bytes rent exempt, `(128 + data_len)` times the rent's rate per
/// byte, or an error where `data_len` is over 10 MiB or the rate is over the
/// limit that keeps the product in a `u64`. Claimed: it succeeds exactly
/// when `rent_minimum_balance` of the rent and the length is a balance, and
/// then returns that balance; a length over 10 MiB is refused; a balance
/// returned is `128 + data_len` times a rate of at most
/// `MAX_LAMPORTS_PER_BYTE`. The rate is private to `Rent`, so which rate is
/// left unsaid.
#[verifier::external_body]
fn try_minimum_balance(rent: &Rent, data_len: usize) -> (r: Result<u64, ProgramError>)
    ensures
        r is Ok <==> rent_minimum_balance(*rent, data_len) is Some,
        r matches Ok(v) ==> rent_minimum_balance(*rent, data_len) == Some(v),
        data_len > 10485760 ==> r is Err,
        r matches Ok(v) ==> (v as int) % (128 + data_len as int) == 0,
        r matches Ok(v) ==> (v as int) / (128 + data_len as int) <= MAX_LAMPORTS_PER_BYTE,
{
    rent.try_minimum_balance(data_len)
}

/// The balance that makes an account of `data_len` bytes rent exempt under
/// `rent`; an error of the runtime passes through as `Runtime`.
pub fn minimum_balance(rent: &Rent, data_len: usize) -> (r: Result<u64, FundraiserError>)
    ensures
        r is Ok <==> rent_minimum_balance(*rent, data_len) is Some,
        r matches Ok(v) ==> rent_minimum_balance(*rent, data_len) == Some(v),
        data_len > 10485760 ==> r is Err,
        r matches Ok(v) ==> (v as int) % (128 + data_len as int) == 0,
        r matches Ok(v) ==> (v as int) / (128 + data_len as int) <= MAX_LAMPORTS_PER_BYTE,
        r matches Err(e) ==> e is Runtime,
{
    match try_minimum_balance(rent, data_len) {
        Ok(v) => Ok(v),
        Err(e) => Err(FundraiserError::Runtime(e)),
    }
}

} // verus!
