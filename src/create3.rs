//! CREATE3 addresses: a salt-addressed proxy deployed by a factory, which in
//! turn deploys the target contract at nonce 1.

use vstd::prelude::*;
use crate::address::{hex_text, Address};
use crate::generator::GenerationResult;

verus! {

/// The Keccak-256 digest of `data`.
pub uninterp spec fn keccak256_of(data: Seq<u8>) -> Seq<u8>;

/// Relies on ethers::utils::keccak256: the 32-byte Keccak-256 digest, which
/// depends on the input bytes alone.
#[verifier::external_body]
fn keccak256(data: &[u8]) -> (r: [u8; 32])
    ensures
        r@ == keccak256_of(data@),
{
    ethers::utils::keccak256(data)
}

/// Relies on rand's `Rng::gen` over the operating system's generator for 32
/// random bytes; nothing is known of their value.
#[verifier::external_body]
fn random_salt() -> (r: [u8; 32]) {
    rand::Rng::gen(&mut rand::rngs::OsRng)
}

/// The address that a CREATE3 deployment through `factory`, on behalf of
/// `deployer`, with proxy init code `proxy_code` and salt `salt` ends up at.
pub open spec fn create3_address_of(
    deployer: Seq<u8>,
    factory: Seq<u8>,
    proxy_code: Seq<u8>,
    salt: Seq<u8>,
) -> Seq<u8> {
    let hashed_salt = keccak256_of(deployer + salt);
    let proxy_hash = keccak256_of(seq![0xffu8] + factory + hashed_salt + keccak256_of(proxy_code));
    let proxy = proxy_hash.subrange(12, 32);
    keccak256_of(seq![0xd6u8, 0x94u8] + proxy + seq![0x01u8]).subrange(12, 32)
}

/// Appends `tail` to `buf`.
fn push_all(buf: &mut Vec<u8>, tail: &[u8])
    ensures
        final(buf)@ == old(buf)@ + tail@,
{
    let mut i: usize = 0;
    while i < tail.len()
        invariant
            0 <= i <= tail@.len(),
            buf@ == old(buf)@ + tail@.subrange(0, i as int),
        decreases tail@.len() - i,
    {
        buf.push(tail[i]);
        i = i + 1;
        assert(buf@ =~= old(buf)@ + tail@.subrange(0, i as int));
    }
    assert(tail@.subrange(0, tail@.len() as int) =~= tail@);
}

/// The last 20 bytes of a digest.
fn low_address(digest: &[u8; 32]) -> (r: Address)
    ensures
        r@ == digest@.subrange(12, 32),
{
    let mut out: Address = [0u8; 20];
    let mut i: usize = 0;
    while i < 20
        invariant
            0 <= i <= 20,
            digest@.len() == 32,
            out@.len() == 20,
            forall|j: int| 0 <= j < i ==> out@[j] == digest@[j + 12],
        decreases 20 - i,
    {
        out[i] = digest[i + 12];
        i = i + 1;
    }
    assert(out@ =~= digest@.subrange(12, 32));
    out
}

/// Derives CREATE3 addresses from random salts for one deployer, factory and
/// proxy init code.
pub struct Create3Generator {
    pub deployer_address: Address,
    pub factory_address: Address,
    pub proxy_byte_code: Vec<u8>,
}

impl Create3Generator {
    pub fn new(deployer_address: Address, factory_address: Address, proxy_byte_code: Vec<u8>) -> (r:
        Self)
        ensures
            r.deployer_address == deployer_address,
            r.factory_address == factory_address,
            r.proxy_byte_code@ == proxy_byte_code@,
    {
        Create3Generator { deployer_address, factory_address, proxy_byte_code }
    }

    /// The CREATE3 address of this configuration for `salt`.
    pub open spec fn address_of(&self, salt: Seq<u8>) -> Seq<u8> {
        create3_address_of(
            self.deployer_address@,
            self.factory_address@,
            self.proxy_byte_code@,
            salt,
        )
    }

    /// The address that `salt` gives under this configuration.
    pub fn address_for_salt(&self, salt: &[u8; 32]) -> (r: Address)
        ensures
            r@ == self.address_of(salt@),
    {
        let mut salted: Vec<u8> = Vec::new();
        push_all(&mut salted, self.deployer_address.as_slice());
        push_all(&mut salted, salt.as_slice());
        let hashed_salt = keccak256(salted.as_slice());

        let code_hash = keccak256(self.proxy_byte_code.as_slice());
        let mut proxy_input: Vec<u8> = Vec::new();
        proxy_input.push(0xffu8);
        push_all(&mut proxy_input, self.factory_address.as_slice());
        push_all(&mut proxy_input, hashed_salt.as_slice());
        push_all(&mut proxy_input, code_hash.as_slice());
        let proxy_hash = keccak256(proxy_input.as_slice());
        let proxy = low_address(&proxy_hash);

        let mut deploy_input: Vec<u8> = Vec::new();
        deploy_input.push(0xd6u8);
        deploy_input.push(0x94u8);
        push_all(&mut deploy_input, proxy.as_slice());
        deploy_input.push(0x01u8);
        let deployed_hash = keccak256(deploy_input.as_slice());
        proof {
            assert(salted@ =~= self.deployer_address@ + salt@);
            assert(proxy_input@ =~= seq![0xffu8] + self.factory_address@ + hashed_salt@
                + code_hash@);
            assert(deploy_input@ =~= seq![0xd6u8, 0x94u8] + proxy@ + seq![0x01u8]);
        }
        low_address(&deployed_hash)
    }

    /// Draws a random salt and derives its address.
    pub fn generate_address(&self) -> (r: (Address, GenerationResult))
        ensures
            r.1 matches GenerationResult::Create3 { salt } && r.0@ == self.address_of(salt@),
    {
        let salt = random_salt();
        let address = self.address_for_salt(&salt);
        (address, GenerationResult::Create3 { salt })
    }

    /// The hex text of the salt of a result of this strategy. Only this
    /// strategy's results may be handed in.
    pub fn generate_private_or_salt(&self, data: GenerationResult) -> (r: String)
        requires
            data is Create3,
        ensures
            data matches GenerationResult::Create3 { salt } && r@ == hex_text(salt@),
    {
        match data {
            GenerationResult::Create3 { salt } => crate::address::to_hex(salt.as_slice()),
            GenerationResult::Eoa { .. } => {
                proof {
                    assert(false);
                }
                String::new()
            },
        }
    }
}

/// CREATE3 derivation is a pure function of its inputs: configurations with
/// the same deployer, factory and proxy init code give one salt one address.
pub proof fn lemma_create3_deterministic(a: Create3Generator, b: Create3Generator, salt: Seq<u8>)
    requires
        a.deployer_address@ == b.deployer_address@,
        a.factory_address@ == b.factory_address@,
        a.proxy_byte_code@ == b.proxy_byte_code@,
    ensures
        a.address_of(salt) == b.address_of(salt),
{
}

} // verus!
