//! Address generation strategies and what each hands back to reveal later.

use vstd::prelude::*;
use crate::address::{hex_text, Address};
use crate::create3::Create3Generator;
use crate::eoa::EoaGenerator;

verus! {

/// The secret that reproduces a generated address.
#[derive(Clone, Copy, Debug)]
pub enum GenerationResult {
    /// The 32-byte private key of an externally owned account.
    Eoa { secret_key: [u8; 32] },
    /// The 32-byte salt of a CREATE3 deployment.
    Create3 { salt: [u8; 32] },
}

/// A result handed to a strategy other than the one that produced it.
#[derive(Clone, Copy, Debug, PartialEq, Eq, Structural)]
pub enum InvalidState {
    WrongStrategy,
}

/// The two address generation strategies.
pub enum Generator {
    Eoa(EoaGenerator),
    Create3(Create3Generator),
}

/// `data` was produced by the strategy of `g`.
pub open spec fn same_strategy(g: &Generator, data: GenerationResult) -> bool {
    match g {
        Generator::Eoa(_) => data is Eoa,
        Generator::Create3(_) => data is Create3,
    }
}

/// The secret bytes that a result carries.
pub open spec fn secret_bytes(data: GenerationResult) -> Seq<u8> {
    match data {
        GenerationResult::Eoa { secret_key } => secret_key@,
        GenerationResult::Create3 { salt } => salt@,
    }
}

impl Generator {
    /// The address of a generated result under this strategy.
    pub open spec fn derives(&self, address: Seq<u8>, data: GenerationResult) -> bool {
        match self {
            Generator::Eoa(g) => g.derives(address, data),
            Generator::Create3(g) => data matches GenerationResult::Create3 { salt } && address
                == g.address_of(salt@),
        }
    }

    /// Produces one candidate address and the secret that reproduces it.
    pub fn generate_address(&self) -> (r: (Address, GenerationResult))
        ensures
            same_strategy(self, r.1),
            self.derives(r.0@, r.1),
    {
        match self {
            Generator::Eoa(g) => g.generate_address(),
            Generator::Create3(g) => g.generate_address(),
        }
    }

    /// The hex text of the secret of a result of this strategy: the private
    /// key or the salt. A result of the other strategy is an invalid state.
    pub fn reveal_secret(&self, data: GenerationResult) -> (r: Result<String, InvalidState>)
        ensures
            same_strategy(self, data) ==> (r matches Ok(s) && s@ == hex_text(secret_bytes(data))),
            !same_strategy(self, data) ==> r == Err::<String, InvalidState>(
                InvalidState::WrongStrategy,
            ),
    {
        match (self, data) {
            (Generator::Eoa(g), GenerationResult::Eoa { .. }) => Ok(g.generate_private_or_salt(data)),
            (Generator::Create3(g), GenerationResult::Create3 { .. }) => Ok(
                g.generate_private_or_salt(data),
            ),
            _ => Err(InvalidState::WrongStrategy),
        }
    }
}

} // verus!
