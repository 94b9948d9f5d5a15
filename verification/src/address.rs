//! Ledger addresses and the derivation of program-controlled addresses.

use anchor_lang::solana_program::pubkey::Pubkey;
use vstd::prelude::*;
use vstd::slice::slice_to_vec;

verus! {

/// The system program, which owns wallets and moves native currency.
pub const SYSTEM_PROGRAM_ID: [u8; 32] = [
    0, 0, 0, 0, 0, 0, 0, 0, 0, 0, 0, 0, 0, 0, 0, 0,
    0, 0, 0, 0, 0, 0, 0, 0, 0, 0, 0, 0, 0, 0, 0, 0,
];

/// The token program, which keeps token-type records and holding accounts.
pub const TOKEN_PROGRAM_ID: [u8; 32] = [
    6, 221, 246, 225, 215, 101, 161, 147, 217, 203, 225, 70, 206, 235, 121, 172,
    28, 180, 133, 237, 95, 91, 55, 145, 58, 140, 245, 133, 126, 255, 0, 169,
];

/// The program that creates the holding account of a wallet for a token type.
pub const ASSOCIATED_TOKEN_PROGRAM_ID: [u8; 32] = [
    140, 151, 37, 143, 78, 36, 137, 241, 187, 61, 16, 41, 20, 142, 13, 131,
    11, 90, 19, 153, 218, 255, 16, 132, 4, 142, 123, 216, 219, 233, 248, 89,
];

/// The metadata registry.
pub const TOKEN_METADATA_PROGRAM_ID: [u8; 32] = [
    11, 112, 101, 177, 227, 209, 124, 69, 56, 157, 82, 127, 107, 4, 195, 205,
    88, 184, 108, 115, 26, 160, 253, 181, 73, 182, 209, 188, 3, 248, 41, 70,
];

/// The account through which the ledger publishes its rent schedule.
pub const RENT_SYSVAR_ID: [u8; 32] = [
    6, 167, 213, 23, 25, 44, 92, 81, 33, 140, 201, 76, 61, 74, 241, 127,
    88, 218, 238, 8, 155, 161, 253, 68, 227, 219, 217, 138, 0, 0, 0, 0,
];

/// The seed label of the configuration record: `config`.
pub const CONFIG_SEED: [u8; 6] = [99, 111, 110, 102, 105, 103];

/// The seed label of the treasury: `payment_vault`.
pub const PAYMENT_VAULT_SEED: [u8; 13] = [
    112, 97, 121, 109, 101, 110, 116, 95, 118, 97, 117, 108, 116,
];

/// A 32-byte ledger address.
#[derive(Clone, Copy, Debug, PartialEq, Eq)]
pub struct Address {
    pub bytes: [u8; 32],
}

impl View for Address {
    type V = Seq<u8>;

    open spec fn view(&self) -> Seq<u8> {
        self.bytes@
    }
}

impl Address {
    /// Whether two addresses hold the same 32 bytes.
    pub fn same_as(&self, other: &Address) -> (same: bool)
        ensures
            same == (*self == *other),
    {
        let mut i: usize = 0;
        while i < 32
            invariant
                i <= 32,
                forall|j: int| 0 <= j < i ==> self.bytes[j] == other.bytes[j],
            decreases 32 - i,
        {
            if self.bytes[i] != other.bytes[i] {
                return false;
            }
            i += 1;
        }
        assert(self.bytes =~= other.bytes);
        true
    }

    /// The 32 bytes as a seed for deriving further addresses.
    pub fn to_seed(&self) -> (seed: Vec<u8>)
        ensures
            seed@ == self@,
    {
        slice_to_vec(self.bytes.as_slice())
    }
}

/// The two records whose addresses the program controls.
#[derive(Clone, Copy, Debug, PartialEq, Eq)]
pub enum SeedLabel {
    /// The configuration record.
    Config,
    /// The treasury.
    PaymentVault,
}

impl SeedLabel {
    /// The bytes of the label: `config` or `payment_vault`.
    pub open spec fn bytes(self) -> Seq<u8> {
        match self {
            SeedLabel::Config => CONFIG_SEED@,
            SeedLabel::PaymentVault => PAYMENT_VAULT_SEED@,
        }
    }

    /// The label as a seed.
    pub fn to_seed(&self) -> (seed: Vec<u8>)
        ensures
            seed@ == self.bytes(),
    {
        match self {
            SeedLabel::Config => slice_to_vec(CONFIG_SEED.as_slice()),
            SeedLabel::PaymentVault => slice_to_vec(PAYMENT_VAULT_SEED.as_slice()),
        }
    }
}

/// The address that the ledger derives for `program` from `seeds`, with the
/// bump seed that keeps it apart from every address that has a private key;
/// `None` where the ledger derives none.
pub uninterp spec fn program_address(seeds: Seq<Seq<u8>>, program: Address) -> Option<(Address, u8)>;

/// `Pubkey::try_find_program_address`: tries the bump seeds 255, 254, .. in
/// turn and returns the first for which the hash of the seeds, the bump seed
/// and the program is no point of the curve, with that hash as the address;
/// `None` where it finds none or a seed is too long. The contract names the
/// outcome, which depends on the arguments alone, and says nothing more of it.
#[verifier::external_body]
pub(crate) fn try_find_program_address(seeds: &Vec<Vec<u8>>, program: &Address) -> (derived: Option<(Address, u8)>)
    ensures
        derived == program_address(seeds.deep_view(), *program),
{
    let slices: Vec<&[u8]> = seeds.iter().map(|seed| seed.as_slice()).collect();
    match Pubkey::try_find_program_address(&slices, &Pubkey::from(program.bytes)) {
        Some((key, bump)) => Some((Address { bytes: key.to_bytes() }, bump)),
        None => None,
    }
}

/// The program-controlled address that `program` has under `label`, with its
/// bump seed.
pub fn find_address(label: SeedLabel, program: &Address) -> (derived: Option<(Address, u8)>)
    ensures
        derived == program_address(seq![label.bytes()], *program),
{
    let mut seeds: Vec<Vec<u8>> = Vec::new();
    seeds.push(label.to_seed());
    assert(seeds.deep_view() =~= seq![label.bytes()]) by {
        assert(seeds@[0].deep_view() =~= seeds@[0]@);
    }
    try_find_program_address(&seeds, program)
}

/// Whether `candidate` is the address that `program` controls under `label`.
pub fn is_address_of(candidate: &Address, label: SeedLabel, program: &Address) -> (matches: bool)
    ensures
        matches == match program_address(seq![label.bytes()], *program) {
            Some((address, _)) => address == *candidate,
            None => false,
        },
{
    match find_address(label, program) {
        Some((address, _)) => address.same_as(candidate),
        None => false,
    }
}

} // verus!
