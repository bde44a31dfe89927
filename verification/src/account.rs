use vstd::prelude::*;

verus! {

/// What this program reads of an account that an instruction names: its
/// address, owner, balance, flags and data.
pub struct Account {
    pub address: [u8; 32],
    pub owner: [u8; 32],
    pub lamports: u64,
    pub is_signer: bool,
    pub is_writable: bool,
    pub data: Vec<u8>,
}

/// `a` and `b` agree on everything but the data.
pub open spec fn same_but_data(a: Account, b: Account) -> bool {
    &&& a.address == b.address
    &&& a.owner == b.owner
    &&& a.lamports == b.lamports
    &&& a.is_signer == b.is_signer
    &&& a.is_writable == b.is_writable
}

/// `a` and `b` agree on everything but the balance.
pub open spec fn same_but_lamports(a: Account, b: Account) -> bool {
    &&& a.address == b.address
    &&& a.owner == b.owner
    &&& a.is_signer == b.is_signer
    &&& a.is_writable == b.is_writable
    &&& a.data@ == b.data@
}

} // verus!
