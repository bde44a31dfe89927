use vstd::prelude::*;

use crate::account::{same_but_data, Account};
use crate::bytes::{as_u8s, lemma_i8s_round_trip, push_all, push_all_signed, read_32, read_8, read_8_signed};
use crate::error::FundraiserError;
use vstd::bytes::spec_u64_from_le_bytes;

verus! {

broadcast use vstd::array::group_array_axioms;

/// The state of a fundraiser, as it lies in the data of its account: the
/// maker, the mint of the token raised, the goal and the amount raised so far
/// (little-endian), the start time (the bytes of a little-endian timestamp),
/// the duration in days and the bump of the account's address.
#[derive(Clone, Copy, Debug, Default, PartialEq)]
pub struct Fundraiser {
    pub maker: [u8; 32],
    pub mint_to_raise: [u8; 32],
    pub amount_to_raise: [u8; 8],
    pub current_amount: [u8; 8],
    pub time_started: [i8; 8],
    pub duration: u8,
    pub bump: u8,
}

impl Fundraiser {
    /// The length of the data of a fundraiser account.
    pub const LEN: usize = 90;

    /// The bytes of `self` in account data, field after field.
    pub open spec fn layout(self) -> Seq<u8> {
        self.maker@ + self.mint_to_raise@ + self.amount_to_raise@ + self.current_amount@ + as_u8s(
            self.time_started@,
        ) + seq![self.duration, self.bump]
    }

    /// The maker recorded in the data of a fundraiser account.
    pub open spec fn maker_in(data: Seq<u8>) -> Seq<u8> {
        data.subrange(0, 32)
    }

    /// The amount raised so far recorded in the data of a fundraiser account.
    pub open spec fn current_amount_in(data: Seq<u8>) -> u64 {
        spec_u64_from_le_bytes(data.subrange(72, 80))
    }

    /// The bump recorded in the data of a fundraiser account.
    pub open spec fn bump_in(data: Seq<u8>) -> u8 {
        data[89]
    }

    /// Each field's bytes lie unchanged at the field's offset in the
    /// account data: the maker at 0, the mint at 32, the goal at 64, the
    /// amount raised at 72, the start time at 80 (each signed byte as the
    /// byte with the same bits), the duration at 88 and the bump at 89, in
    /// 90 bytes in all.
    pub proof fn lemma_layout_offsets(self)
        ensures
            self.layout().len() == 90,
            self.layout().subrange(0, 32) == self.maker@,
            self.layout().subrange(32, 64) == self.mint_to_raise@,
            self.layout().subrange(64, 72) == self.amount_to_raise@,
            self.layout().subrange(72, 80) == self.current_amount@,
            forall|i: int| 0 <= i < 8 ==> #[trigger] self.layout()[80 + i] == self.time_started@[i] as u8,
            self.layout()[88] == self.duration,
            self.layout()[89] == self.bump,
    {
        assert(self.layout().subrange(0, 32) =~= self.maker@);
        assert(self.layout().subrange(32, 64) =~= self.mint_to_raise@);
        assert(self.layout().subrange(64, 72) =~= self.amount_to_raise@);
        assert(self.layout().subrange(72, 80) =~= self.current_amount@);
    }

    /// The layout has `LEN` bytes.
    pub proof fn lemma_layout_len(self)
        ensures
            self.layout().len() == Fundraiser::LEN,
    {
    }

    /// The layout determines the fundraiser: two fundraisers with the same
    /// bytes are equal, so what is written to an account is read back.
    pub proof fn lemma_layout_injective(a: Fundraiser, b: Fundraiser)
        requires
            a.layout() == b.layout(),
        ensures
            a == b,
    {
        let s = a.layout();
        assert(a.maker@ =~= s.subrange(0, 32));
        assert(b.maker@ =~= s.subrange(0, 32));
        assert(a.mint_to_raise@ =~= s.subrange(32, 64));
        assert(b.mint_to_raise@ =~= s.subrange(32, 64));
        assert(a.amount_to_raise@ =~= s.subrange(64, 72));
        assert(b.amount_to_raise@ =~= s.subrange(64, 72));
        assert(a.current_amount@ =~= s.subrange(72, 80));
        assert(b.current_amount@ =~= s.subrange(72, 80));
        assert(as_u8s(a.time_started@) =~= s.subrange(80, 88));
        assert(as_u8s(b.time_started@) =~= s.subrange(80, 88));
        lemma_i8s_round_trip(s, a.time_started@);
        lemma_i8s_round_trip(s, b.time_started@);
        assert(a.time_started@ =~= b.time_started@);
        assert(a.maker =~= b.maker);
        assert(a.mint_to_raise =~= b.mint_to_raise);
        assert(a.amount_to_raise =~= b.amount_to_raise);
        assert(a.current_amount =~= b.current_amount);
        assert(a.time_started =~= b.time_started);
        assert(a.duration == s[88] && b.duration == s[88]);
        assert(a.bump == s[89] && b.bump == s[89]);
    }

    /// Reads the fundraiser held in an account's data. Data of any length
    /// but `LEN` is refused with `InvalidAccountData`.
    pub fn from_account_info(account: &Account) -> (r: Result<Fundraiser, FundraiserError>)
        ensures
            account.data@.len() != Fundraiser::LEN ==> r == Err::<Fundraiser, FundraiserError>(
                FundraiserError::InvalidAccountData,
            ),
            account.data@.len() == Fundraiser::LEN ==> (r matches Ok(f) && f.layout()
                == account.data@),
            r matches Ok(f) ==> {
                &&& f.maker@ == account.data@.subrange(0, 32)
                &&& f.mint_to_raise@ == account.data@.subrange(32, 64)
                &&& f.amount_to_raise@ == account.data@.subrange(64, 72)
                &&& f.current_amount@ == account.data@.subrange(72, 80)
                &&& f.duration == account.data@[88]
                &&& f.bump == account.data@[89]
            },
    {
        if account.data.len() != Fundraiser::LEN {
            return Err(FundraiserError::InvalidAccountData);
        }
        let data = account.data.as_slice();
        let f = Fundraiser {
            maker: read_32(data, 0),
            mint_to_raise: read_32(data, 32),
            amount_to_raise: read_8(data, 64),
            current_amount: read_8(data, 72),
            time_started: read_8_signed(data, 80),
            duration: data[88],
            bump: data[89],
        };
        proof {
            lemma_i8s_round_trip(data@.subrange(80, 88), f.time_started@);
        }
        assert(f.layout() =~= data@);
        proof {
            f.lemma_layout_offsets();
        }
        Ok(f)
    }

    /// The bytes of `self` in account data.
    pub fn to_bytes(&self) -> (r: Vec<u8>)
        ensures
            r@ == self.layout(),
            r@.len() == 90,
            r@.subrange(0, 32) == self.maker@,
            r@.subrange(32, 64) == self.mint_to_raise@,
            r@.subrange(64, 72) == self.amount_to_raise@,
            r@.subrange(72, 80) == self.current_amount@,
            r@[88] == self.duration,
            r@[89] == self.bump,
    {
        let mut r: Vec<u8> = Vec::new();
        push_all(&mut r, self.maker.as_slice());
        push_all(&mut r, self.mint_to_raise.as_slice());
        push_all(&mut r, self.amount_to_raise.as_slice());
        push_all(&mut r, self.current_amount.as_slice());
        push_all_signed(&mut r, self.time_started.as_slice());
        r.push(self.duration);
        r.push(self.bump);
        assert(r@ =~= self.layout());
        proof {
            self.lemma_layout_offsets();
        }
        r
    }

    /// Writes `self` into the data of a fundraiser account; nothing else of
    /// the account changes.
    pub fn store(&self, account: &mut Account)
        requires
            old(account).data@.len() == Fundraiser::LEN,
        ensures
            final(account).data@ == self.layout(),
            same_but_data(*final(account), *old(account)),
    {
        account.data = self.to_bytes();
    }
}

} // verus!
