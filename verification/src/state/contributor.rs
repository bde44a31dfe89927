use vstd::prelude::*;

use crate::account::{same_but_data, Account};
use crate::bytes::{push_all, read_32, read_8, write_at};
use crate::error::FundraiserError;
use vstd::bytes::spec_u64_from_le_bytes;

verus! {

broadcast use vstd::array::group_array_axioms;

/// The record of one contributor to one fundraiser, as it lies in the data of
/// its account: an address, the amount contributed (little-endian) and the
/// bump of the record's address.
#[derive(Clone, Copy, Debug)]
pub struct Contributor {
    pub address: [u8; 32],
    pub amount: [u8; 8],
    pub bump: u8,
}

impl Contributor {
    /// The length of the data of a contributor account.
    pub const LEN: usize = 41;

    /// The bytes of `self` in account data, field after field.
    pub open spec fn layout(self) -> Seq<u8> {
        self.address@ + self.amount@ + seq![self.bump]
    }

    /// The amount recorded in the data of a contributor account.
    pub open spec fn amount_in(data: Seq<u8>) -> u64 {
        spec_u64_from_le_bytes(data.subrange(32, 40))
    }

    /// Each field's bytes lie unchanged at the field's offset in the
    /// account data: the address at 0, the amount at 32 and the bump at 40,
    /// in 41 bytes in all.
    pub proof fn lemma_layout_offsets(self)
        ensures
            self.layout().len() == 41,
            self.layout().subrange(0, 32) == self.address@,
            self.layout().subrange(32, 40) == self.amount@,
            self.layout()[40] == self.bump,
    {
        assert(self.layout().subrange(0, 32) =~= self.address@);
        assert(self.layout().subrange(32, 40) =~= self.amount@);
    }

    /// The layout has `LEN` bytes.
    pub proof fn lemma_layout_len(self)
        ensures
            self.layout().len() == Contributor::LEN,
    {
    }

    /// The layout determines the record: two records with the same bytes
    /// are equal, so what is written to an account is read back.
    pub proof fn lemma_layout_injective(a: Contributor, b: Contributor)
        requires
            a.layout() == b.layout(),
        ensures
            a == b,
    {
        let s = a.layout();
        assert(a.address@ =~= s.subrange(0, 32));
        assert(b.address@ =~= s.subrange(0, 32));
        assert(a.amount@ =~= s.subrange(32, 40));
        assert(b.amount@ =~= s.subrange(32, 40));
        assert(a.address =~= b.address);
        assert(a.amount =~= b.amount);
        assert(a.bump == s[40] && b.bump == s[40]);
    }

    /// Reads the record held in an account's data. Data of any length but
    /// `LEN` is refused with `InvalidAccountData`.
    pub fn from_account_info(account: &Account) -> (r: Result<Contributor, FundraiserError>)
        ensures
            account.data@.len() != Contributor::LEN ==> r == Err::<Contributor, FundraiserError>(
                FundraiserError::InvalidAccountData,
            ),
            account.data@.len() == Contributor::LEN ==> (r matches Ok(c) && c.layout()
                == account.data@),
            r matches Ok(c) ==> {
                &&& c.address@ == account.data@.subrange(0, 32)
                &&& c.amount@ == account.data@.subrange(32, 40)
                &&& c.bump == account.data@[40]
            },
    {
        if account.data.len() != Contributor::LEN {
            return Err(FundraiserError::InvalidAccountData);
        }
        let data = account.data.as_slice();
        let c = Contributor { address: read_32(data, 0), amount: read_8(data, 32), bump: data[40] };
        assert(c.layout() =~= data@);
        proof {
            c.lemma_layout_offsets();
        }
        Ok(c)
    }

    /// The bytes of `self` in account data.
    pub fn to_bytes(&self) -> (r: Vec<u8>)
        ensures
            r@ == self.layout(),
            r@.len() == 41,
            r@.subrange(0, 32) == self.address@,
            r@.subrange(32, 40) == self.amount@,
            r@[40] == self.bump,
    {
        let mut r: Vec<u8> = Vec::new();
        push_all(&mut r, self.address.as_slice());
        push_all(&mut r, self.amount.as_slice());
        r.push(self.bump);
        assert(r@ =~= self.layout());
        proof {
            self.lemma_layout_offsets();
        }
        r
    }

    /// Writes `self` over the first `LEN` bytes of an account's data; the
    /// rest of the data and of the account is unchanged.
    pub fn store(&self, account: &mut Account)
        requires
            old(account).data@.len() >= Contributor::LEN,
        ensures
            final(account).data@ == self.layout() + old(account).data@.subrange(
                Contributor::LEN as int,
                old(account).data@.len() as int,
            ),
            same_but_data(*final(account), *old(account)),
    {
        let bytes = self.to_bytes();
        write_at(&mut account.data, 0, bytes.as_slice());
        assert(old(account).data@.subrange(0, 0) + self.layout() =~= self.layout());
    }
}

} // verus!
