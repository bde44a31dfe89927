use vstd::prelude::*;

pub mod checker;
pub mod contribute;
pub mod create_contributor;
pub mod initialize;
pub mod refund;

use crate::error::FundraiserError;
use crate::ID;

verus! {

/// The instructions of this program, by the first byte of the instruction
/// data.
#[derive(Debug, Clone, Copy, PartialEq, Eq, Structural)]
pub enum FundraiserInstructions {
    Initialize,
    CreateContributor,
    Contribute,
    Checker,
    Refund,
}

impl FundraiserInstructions {
    /// The byte that selects `self`.
    pub open spec fn discriminator(self) -> u8 {
        match self {
            FundraiserInstructions::Initialize => 0,
            FundraiserInstructions::CreateContributor => 1,
            FundraiserInstructions::Contribute => 2,
            FundraiserInstructions::Checker => 3,
            FundraiserInstructions::Refund => 4,
        }
    }

    /// The instruction that `byte` selects, if any.
    pub open spec fn decode(byte: u8) -> Option<FundraiserInstructions> {
        if byte == 0 {
            Some(FundraiserInstructions::Initialize)
        } else if byte == 1 {
            Some(FundraiserInstructions::CreateContributor)
        } else if byte == 2 {
            Some(FundraiserInstructions::Contribute)
        } else if byte == 3 {
            Some(FundraiserInstructions::Checker)
        } else if byte == 4 {
            Some(FundraiserInstructions::Refund)
        } else {
            None
        }
    }

    /// Reads an instruction from its discriminator byte; bytes above 4 are
    /// refused with `InvalidInstructionData`.
    pub fn try_from(value: &u8) -> (r: Result<FundraiserInstructions, FundraiserError>)
        ensures
            match FundraiserInstructions::decode(*value) {
                Some(i) => r == Ok::<FundraiserInstructions, FundraiserError>(i),
                None => r == Err::<FundraiserInstructions, FundraiserError>(
                    FundraiserError::InvalidInstructionData,
                ),
            },
    {
        match *value {
            0 => Ok(FundraiserInstructions::Initialize),
            1 => Ok(FundraiserInstructions::CreateContributor),
            2 => Ok(FundraiserInstructions::Contribute),
            3 => Ok(FundraiserInstructions::Checker),
            4 => Ok(FundraiserInstructions::Refund),
            _ => Err(FundraiserError::InvalidInstructionData),
        }
    }
}

/// A cross-program invocation that an instruction asks of the runtime. Each
/// account is given by its position in the instruction's account list.
pub enum Cpi {
    /// The system program creates account `to`, funded by `from` with
    /// `lamports`, with `space` bytes of data, owned by `owner`.
    CreateAccount { from: usize, to: usize, lamports: u64, space: u64, owner: [u8; 32] },
    /// The token program moves `amount` tokens from `from` to `to` on the
    /// authority of `authority`.
    Transfer { from: usize, to: usize, authority: usize, amount: u64 },
    /// The associated token account program creates `account`, the token
    /// account of `wallet` for `mint`, paid by `funding_account`.
    CreateAssociatedTokenAccount {
        funding_account: usize,
        account: usize,
        wallet: usize,
        mint: usize,
        system_program: usize,
        token_program: usize,
    },
}

/// An invocation and the seeds of the program address that signs it, if one
/// does.
pub struct Invocation {
    pub cpi: Cpi,
    pub signer_seeds: Option<Vec<Vec<u8>>>,
}

/// Splits instruction data into the instruction its first byte selects and
/// the rest. Empty data, and a first byte that selects no instruction, are
/// refused with `InvalidInstructionData`.
pub fn parse_instruction<'a>(program_id: &[u8; 32], instruction_data: &'a [u8]) -> (r: Result<
    (FundraiserInstructions, &'a [u8]),
    FundraiserError,
>)
    requires
        program_id@ == ID@,
    ensures
        instruction_data@.len() == 0 ==> r == Err::<(FundraiserInstructions, &'a [u8]), FundraiserError>(
            FundraiserError::InvalidInstructionData,
        ),
        instruction_data@.len() > 0 ==> match FundraiserInstructions::decode(instruction_data@[0]) {
            Some(i) => (r matches Ok((j, rest)) && j == i && rest@ == instruction_data@.subrange(
                1,
                instruction_data@.len() as int,
            )),
            None => r == Err::<(FundraiserInstructions, &'a [u8]), FundraiserError>(
                FundraiserError::InvalidInstructionData,
            ),
        },
{
    if instruction_data.len() == 0 {
        return Err(FundraiserError::InvalidInstructionData);
    }
    let discriminator = instruction_data[0];
    let rest = vstd::slice::slice_subrange(instruction_data, 1, instruction_data.len());
    let instruction = FundraiserInstructions::try_from(&discriminator)?;
    Ok((instruction, rest))
}

/// Every instruction is read back from its own discriminator, and a byte that
/// is read as an instruction is that instruction's discriminator: the byte
/// encoding of instructions is a bijection between the five instructions and
/// the bytes 0 to 4.
pub proof fn lemma_discriminator_round_trip(i: FundraiserInstructions, byte: u8)
    ensures
        FundraiserInstructions::decode(i.discriminator()) == Some(i),
        i.discriminator() < 5,
        FundraiserInstructions::decode(byte) matches Some(j) ==> j.discriminator() == byte,
        FundraiserInstructions::decode(byte) is None <==> byte >= 5,
{
}

} // verus!
