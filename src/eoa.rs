//! Externally owned accounts: an address derived from a random private key.

use vstd::prelude::*;
use crate::address::{hex_text, Address};
use crate::generator::GenerationResult;

verus! {

/// The unsigned number that `s` holds, most significant byte first.
pub open spec fn big_endian_value(s: Seq<u8>) -> nat
    decreases s.len(),
{
    if s.len() == 0 {
        0
    } else {
        (big_endian_value(s.drop_last()) * 256 + s.last()) as nat
    }
}

/// The order of the secp256k1 group.
pub open spec fn secp256k1_order() -> nat {
    let two_64: nat = 0x1_0000_0000_0000_0000;
    0xFFFF_FFFF_FFFF_FFFF_FFFF_FFFF_FFFF_FFFEnat * two_64 * two_64
        + 0xBAAE_DCE6_AF48_A03B_BFD2_5E8C_D036_4141nat
}

/// `k` is a valid secp256k1 private key: 32 big-endian bytes of a number
/// between 1 and the group order, exclusive.
pub open spec fn is_secret_key(k: Seq<u8>) -> bool {
    &&& k.len() == 32
    &&& 0 < big_endian_value(k) < secp256k1_order()
}

/// The account address of a private key.
pub uninterp spec fn eoa_address_of(secret_key: Seq<u8>) -> Seq<u8>;

/// Relies on k256's `SigningKey::random` (through ethers::core), which draws a
/// non-zero scalar below the group order from the operating system's
/// generator, and on `SigningKey::to_bytes`, its 32 big-endian bytes.
#[verifier::external_body]
fn random_secret_key() -> (r: [u8; 32])
    ensures
        is_secret_key(r@),
{
    ethers::core::k256::ecdsa::SigningKey::random(&mut rand::rngs::OsRng).to_bytes().into()
}

/// Relies on k256's `SigningKey::from_bytes`, which accepts exactly the
/// big-endian scalars between 1 and the group order, exclusive, and on
/// ethers::utils::secret_key_to_address, whose result depends on the key alone.
#[verifier::external_body]
fn secret_key_address(secret_key: &[u8; 32]) -> (r: Option<Address>)
    ensures
        r is Some <==> is_secret_key(secret_key@),
        r matches Some(a) ==> a@ == eoa_address_of(secret_key@),
{
    let bytes = ethers::core::k256::FieldBytes::from_slice(secret_key);
    ethers::core::k256::ecdsa::SigningKey::from_bytes(bytes).ok().map(
        |k| ethers::utils::secret_key_to_address(&k).0,
    )
}

/// Derives account addresses from random private keys.
pub struct EoaGenerator {}

impl EoaGenerator {
    /// `address` is the account address of the private key in `data`.
    pub open spec fn derives(&self, address: Seq<u8>, data: GenerationResult) -> bool {
        data matches GenerationResult::Eoa { secret_key } && is_secret_key(secret_key@) && address
            == eoa_address_of(secret_key@)
    }

    /// The account address of a private key, or `None` where the bytes are no
    /// valid key.
    pub fn address_of_secret_key(secret_key: &[u8; 32]) -> (r: Option<Address>)
        ensures
            r is Some <==> is_secret_key(secret_key@),
            r matches Some(a) ==> a@ == eoa_address_of(secret_key@),
    {
        secret_key_address(secret_key)
    }

    /// Draws a random private key and derives its address.
    pub fn generate_address(&self) -> (r: (Address, GenerationResult))
        ensures
            self.derives(r.0@, r.1),
    {
        let secret_key = random_secret_key();
        match secret_key_address(&secret_key) {
            Some(address) => (address, GenerationResult::Eoa { secret_key }),
            None => {
                proof {
                    assert(false);
                }
                ([0u8; 20], GenerationResult::Eoa { secret_key })
            },
        }
    }

    /// The hex text of the private key of a result of this strategy. Only
    /// this strategy's results may be handed in.
    pub fn generate_private_or_salt(&self, data: GenerationResult) -> (r: String)
        requires
            data is Eoa,
        ensures
            data matches GenerationResult::Eoa { secret_key } && r@ == hex_text(secret_key@),
    {
        match data {
            GenerationResult::Eoa { secret_key } => crate::address::to_hex(secret_key.as_slice()),
            GenerationResult::Create3 { .. } => {
                proof {
                    assert(false);
                }
                String::new()
            },
        }
    }
}

} // verus!
