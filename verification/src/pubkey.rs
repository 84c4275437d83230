//! Account identities and the derivation of program-owned addresses.

use vstd::prelude::*;

verus! {

/// The identity of an account: thirty-two bytes.
#[derive(Clone, Copy, Debug, Eq)]
pub struct Pubkey {
    pub bytes: [u8; 32],
}

impl View for Pubkey {
    type V = Seq<u8>;

    open spec fn view(&self) -> Seq<u8> {
        self.bytes@
    }
}

impl PartialEq for Pubkey {
    fn eq(&self, other: &Pubkey) -> (r: bool) {
        let mut i: usize = 0;
        while i < 32
            invariant
                i <= 32,
                forall|j: int| 0 <= j < i ==> self.bytes@[j] == other.bytes@[j],
            decreases 32 - i,
        {
            if self.bytes[i] != other.bytes[i] {
                return false;
            }
            i = i + 1;
        }
        assert(self.bytes =~= other.bytes);
        true
    }
}

impl vstd::std_specs::cmp::PartialEqSpecImpl for Pubkey {
    open spec fn obeys_eq_spec() -> bool {
        true
    }

    open spec fn eq_spec(&self, other: &Pubkey) -> bool {
        *self == *other
    }
}

impl Default for Pubkey {
    fn default() -> (r: Pubkey)
        ensures
            r.is_zero(),
    {
        Pubkey { bytes: [0u8; 32] }
    }
}

impl Pubkey {
    /// Whether every byte of this identity is zero.
    pub open spec fn is_zero(self) -> bool {
        forall|i: int| 0 <= i < 32 ==> self@[i] == 0
    }

    /// The identity made of the given bytes.
    pub fn new_from_array(bytes: [u8; 32]) -> (r: Pubkey)
        ensures
            r.bytes == bytes,
    {
        Pubkey { bytes }
    }

    /// The bytes of this identity.
    pub fn to_bytes(&self) -> (r: [u8; 32])
        ensures
            r == self.bytes,
    {
        self.bytes
    }
}

/// The address under which this program is deployed.
pub const ID: [u8; 32] = [
    115, 81, 41, 181, 239, 82, 97, 9, 198, 236, 181, 149, 184, 251, 69, 101,
    88, 213, 221, 183, 13, 158, 54, 166, 227, 114, 45, 19, 190, 96, 188, 198,
];

/// Seed of the address that holds the configuration record.
pub const GLOBAL_STATE_SEED: [u8; 12] = [103, 108, 111, 98, 97, 108, 45, 115, 116, 97, 116, 101];

/// Seed of the custody address.
pub const VAULT_WALLET_SEED: [u8; 12] = [118, 97, 117, 108, 116, 45, 119, 97, 108, 108, 101, 116];

/// Seed of the address that holds a user's quota record; the user's identity follows it.
pub const USER_POOL_SEED: [u8; 9] = [117, 115, 101, 114, 45, 112, 111, 111, 108];

/// The largest number of seeds an address can be derived from.
pub const MAX_SEEDS: usize = 16;

/// The largest length of one seed.
pub const MAX_SEED_LEN: usize = 32;

/// The identity of this program.
pub fn id() -> (r: Pubkey)
    ensures
        r == program_id(),
{
    Pubkey { bytes: ID }
}

/// The identity of this program, in contracts.
pub open spec fn program_id() -> Pubkey {
    Pubkey { bytes: ID }
}

/// The address that the platform derives from `seeds` for the program
/// `program_id`, or `None` where the seeds yield no such address.
pub uninterp spec fn derived_address(seeds: Seq<Seq<u8>>, program_id: Pubkey) -> Option<Pubkey>;

/// Calls `solana_program::pubkey::Pubkey::create_program_address`.
///
/// Trusted, not proved: the address that comes back is a function of the seeds
/// and of the program's identity alone, here called `derived_address`; an error
/// of the outside function comes back as `None`. More than `MAX_SEEDS` seeds,
/// or a seed longer than `MAX_SEED_LEN`, give no address.
#[verifier::external_body]
pub(crate) fn create_program_address(seeds: &Vec<Vec<u8>>, program_id: &Pubkey) -> (r: Option<Pubkey>)
    ensures
        r == derived_address(seeds.deep_view(), *program_id),
        seeds.len() > MAX_SEEDS ==> r is None,
        (exists|i: int| 0 <= i < seeds.len() && seeds[i].len() > MAX_SEED_LEN) ==> r is None,
{
    let parts: Vec<&[u8]> = seeds.iter().map(|seed| seed.as_slice()).collect();
    let owner = solana_program::pubkey::Pubkey::new_from_array(program_id.bytes);
    match solana_program::pubkey::Pubkey::create_program_address(&parts, &owner) {
        Ok(address) => Some(Pubkey { bytes: address.to_bytes() }),
        Err(_) => None,
    }
}

/// The seeds from which the custody address is derived, in contracts.
pub open spec fn vault_seeds(bump: u8) -> Seq<Seq<u8>> {
    seq![VAULT_WALLET_SEED@, seq![bump]]
}

/// The seeds from which the custody address is derived: the fixed seed, then
/// the stored derivation parameter.
pub fn vault_signer_seeds(bump: u8) -> (r: Vec<Vec<u8>>)
    ensures
        r.deep_view() == vault_seeds(bump),
{
    let mut fixed: Vec<u8> = Vec::new();
    let mut i: usize = 0;
    while i < 12
        invariant
            i <= 12,
            fixed@ == VAULT_WALLET_SEED@.subrange(0, i as int),
        decreases 12 - i,
    {
        fixed.push(VAULT_WALLET_SEED[i]);
        i = i + 1;
    }
    assert(fixed@ == VAULT_WALLET_SEED@);
    let mut last: Vec<u8> = Vec::new();
    last.push(bump);
    assert(last@ == seq![bump]);
    let mut seeds: Vec<Vec<u8>> = Vec::new();
    seeds.push(fixed);
    seeds.push(last);
    assert(seeds.deep_view() =~~= vault_seeds(bump));
    seeds
}

} // verus!
