use vstd::prelude::*;
use vstd::bytes::{spec_u64_to_le_bytes, u64_to_le_bytes};

verus! {

/// An account address, as its 32 bytes.
pub type Pubkey = [u8; 32];

/// The pool's configuration account.
#[derive(Clone, Copy, Debug, PartialEq, Eq)]
pub struct AmmConfig {
    /// Arbitrary value from which the pool's address is derived.
    pub seed: u64,
    /// The pool's creator.
    pub authority: Option<Pubkey>,
    pub mint_x: Pubkey,
    pub mint_y: Pubkey,
    pub lp_mint: Pubkey,
    /// The wallet that receives the protocol fees.
    pub treasury: Pubkey,
    /// Emergency pause switch.
    pub locked: bool,
    /// Swap fee in basis points, applied by the curve and kept by the pool.
    pub fee: u16,
    /// Basis points of a swap's input skimmed to the treasury.
    pub protocol_fee: u16,
    pub bump: u8,
}


/// The bytes of `"amm_config"`, the first seed of a configuration account's address.
pub open spec fn config_prefix() -> Seq<u8> {
    seq![97u8, 109u8, 109u8, 95u8, 99u8, 111u8, 110u8, 102u8, 105u8, 103u8]
}

/// The bytes of `"lp"`, the first seed of an LP mint's address.
pub open spec fn lp_prefix() -> Seq<u8> {
    seq![108u8, 112u8]
}

/// The bytes that a list of seeds holds.
pub open spec fn seeds_view(s: Seq<Vec<u8>>) -> Seq<Seq<u8>> {
    s.map_values(|v: Vec<u8>| v@)
}

/// The seeds of the address of the pool with this seed.
pub open spec fn config_address_seeds_spec(seed: u64) -> Seq<Seq<u8>> {
    seq![config_prefix(), spec_u64_to_le_bytes(seed)]
}

/// The seeds with which the pool's configuration account signs.
pub open spec fn config_signer_seeds_spec(seed: u64, bump: u8) -> Seq<Seq<u8>> {
    config_address_seeds_spec(seed).push(seq![bump])
}

/// The seeds of the address of the LP mint of the pool at `config`.
pub open spec fn lp_mint_seeds_spec(config: Pubkey) -> Seq<Seq<u8>> {
    seq![lp_prefix(), config@]
}

/// The seeds of the address of the pool with this seed: `"amm_config"`, then
/// the seed's eight bytes, least significant first.
pub fn config_address_seeds(seed: u64) -> (s: Vec<Vec<u8>>)
    ensures
        seeds_view(s@) == config_address_seeds_spec(seed),
        s@.len() == 2,
        s@[0]@ == seq![97u8, 109u8, 109u8, 95u8, 99u8, 111u8, 110u8, 102u8, 105u8, 103u8],
        s@[1]@ == spec_u64_to_le_bytes(seed),
{
    let mut s: Vec<Vec<u8>> = Vec::new();
    s.push(vec![97u8, 109u8, 109u8, 95u8, 99u8, 111u8, 110u8, 102u8, 105u8, 103u8]);
    s.push(u64_to_le_bytes(seed));
    assert(s@[0]@ == config_prefix());
    assert(seeds_view(s@) =~= config_address_seeds_spec(seed));
    s
}

/// The seeds with which the pool's configuration account signs its
/// transfers: those of its address, then its bump.
pub fn config_signer_seeds(seed: u64, bump: u8) -> (s: Vec<Vec<u8>>)
    ensures
        seeds_view(s@) == config_signer_seeds_spec(seed, bump),
        s@.len() == 3,
        s@[0]@ == seq![97u8, 109u8, 109u8, 95u8, 99u8, 111u8, 110u8, 102u8, 105u8, 103u8],
        s@[1]@ == spec_u64_to_le_bytes(seed),
        s@[2]@ == seq![bump],
{
    let mut s = config_address_seeds(seed);
    let ghost before = s@;
    assert(before.len() == seeds_view(before).len());
    s.push(vec![bump]);
    assert(s@ == before.push(s@[2]));
    assert(s@[2]@ == seq![bump]);
    assert(seeds_view(s@) =~= config_signer_seeds_spec(seed, bump));
    s
}

/// The seeds of the address of the LP mint of the pool at `config`: `"lp"`,
/// then the configuration account's address.
pub fn lp_mint_seeds(config: &Pubkey) -> (s: Vec<Vec<u8>>)
    ensures
        seeds_view(s@) == lp_mint_seeds_spec(*config),
        s@.len() == 2,
        s@[0]@ == seq![108u8, 112u8],
        s@[1]@ == config@,
{
    let mut key: Vec<u8> = Vec::new();
    let mut i: usize = 0;
    while i < 32
        invariant
            0 <= i <= 32,
            key@ == config@.take(i as int),
        decreases 32 - i,
    {
        key.push(config[i]);
        i = i + 1;
    }
    assert(config@.take(32) =~= config@);
    let mut s: Vec<Vec<u8>> = Vec::new();
    s.push(vec![108u8, 112u8]);
    s.push(key);
    assert(s@[0]@ == lp_prefix());
    assert(seeds_view(s@) =~= lp_mint_seeds_spec(*config));
    s
}

/// Pools with different seeds sign with different seeds: the seed bytes in
/// a configuration account's signer seeds determine the pool's seed.
pub proof fn law_signer_seeds_identify_pool(seed1: u64, bump1: u8, seed2: u64, bump2: u8)
    requires
        config_signer_seeds_spec(seed1, bump1) == config_signer_seeds_spec(seed2, bump2),
    ensures
        seed1 == seed2,
        bump1 == bump2,
{
    vstd::bytes::lemma_auto_spec_u64_to_from_le_bytes();
    assert(config_signer_seeds_spec(seed1, bump1)[1] == spec_u64_to_le_bytes(seed1));
    assert(config_signer_seeds_spec(seed2, bump2)[1] == spec_u64_to_le_bytes(seed2));
    assert(config_signer_seeds_spec(seed1, bump1)[2][0] == bump1);
    assert(config_signer_seeds_spec(seed2, bump2)[2][0] == bump2);
}

} // verus!
