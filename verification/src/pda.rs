//! Program derived addresses: the outside derivation behind trusted items,
//! and the checks that the account constraints make with it.
use vstd::prelude::*;

use crate::constants::{
    AGENT_SEED, APPROVAL_SEED, MEMBER_SEED, SWARM_SEED, TASK_SEED, TREASURY_SEED,
};
use crate::program_id_bytes;
use crate::pubkey::Pubkey;

verus! {

/// The error that address derivation of the outside crate reports; opaque
/// here.
#[verifier::external_type_specification]
#[verifier::external_body]
pub struct ExPubkeyError(anchor_lang::solana_program::pubkey::PubkeyError);

/// The most seeds an address derivation takes.
pub const MAX_SEEDS: usize = 16;

/// The longest seed an address derivation takes.
pub const MAX_SEED_LEN: usize = 32;

/// The program derived address that `Pubkey::create_program_address` gives for
/// the seeds and the program id: `None` where the hash of the seeds lies on the
/// ed25519 curve.
pub uninterp spec fn program_address(seeds: Seq<Seq<u8>>, program_id: Seq<u8>) -> Option<Seq<u8>>;

/// The byte contents of each seed.
pub open spec fn seed_bytes(seeds: Seq<&[u8]>) -> Seq<Seq<u8>> {
    seeds.map_values(|s: &[u8]| s@)
}

/// Whether the seeds are within the limits that address derivation accepts.
pub open spec fn seeds_within_limits(seeds: Seq<Seq<u8>>) -> bool {
    &&& seeds.len() <= MAX_SEEDS
    &&& forall|i: int| 0 <= i < seeds.len() ==> #[trigger] seeds[i].len() <= MAX_SEED_LEN
}

/// Calls `Pubkey::create_program_address` of the outside crate. Claimed: it
/// succeeds exactly when there are at most 16 seeds of at most 32 bytes each
/// and the hash of seeds and program id lies off the curve, and then gives the
/// address that `program_address` names. Which error it reports on failure is
/// not stated.
#[verifier::external_body]
pub(crate) fn create_program_address(seeds: &[&[u8]], program_id: &Pubkey) -> (r: Result<
    Pubkey,
    anchor_lang::solana_program::pubkey::PubkeyError,
>)
    ensures
        r is Ok <==> (seeds_within_limits(seed_bytes(seeds@))
            && program_address(seed_bytes(seeds@), program_id@) is Some),
        r matches Ok(k) ==> program_address(seed_bytes(seeds@), program_id@) == Some(k@),
{
    let id = anchor_lang::solana_program::pubkey::Pubkey::new_from_array(program_id.bytes);
    match anchor_lang::solana_program::pubkey::Pubkey::create_program_address(seeds, &id) {
        Ok(k) => Ok(Pubkey::new_from_array(k.to_bytes())),
        Err(e) => Err(e),
    }
}

/// The search for the canonical bump: from `bump` down to 1, the first bump
/// seed whose derived address exists, with that address.
pub open spec fn bump_search(seeds: Seq<Seq<u8>>, program_id: Seq<u8>, bump: int) -> Option<
    (Seq<u8>, u8),
>
    decreases bump,
{
    if bump < 1 {
        None
    } else {
        match program_address(seeds.push(seq![bump as u8]), program_id) {
            Some(a) => Some((a, bump as u8)),
            None => bump_search(seeds, program_id, bump - 1),
        }
    }
}

/// What `Pubkey::try_find_program_address` gives: no address when the seeds
/// with a bump seed appended exceed the limits, else the first bump from 255
/// down to 1 whose derived address exists.
pub open spec fn found_program_address(seeds: Seq<Seq<u8>>, program_id: Seq<u8>) -> Option<
    (Seq<u8>, u8),
> {
    if seeds_within_limits(seeds.push(seq![255u8])) {
        bump_search(seeds, program_id, 255)
    } else {
        None
    }
}

/// Calls `Pubkey::try_find_program_address` of the outside crate. Claimed: it
/// tries the bump seeds 255, 254, ..., 1 in turn through
/// `create_program_address` and returns the first address that exists with its
/// bump; it gives up when the seeds exceed the limits.
#[verifier::external_body]
pub(crate) fn try_find_program_address(seeds: &[&[u8]], program_id: &Pubkey) -> (r: Option<
    (Pubkey, u8),
>)
    ensures
        r is None <==> found_program_address(seed_bytes(seeds@), program_id@) is None,
        r matches Some(p) ==> found_program_address(seed_bytes(seeds@), program_id@) == Some(
            (p.0@, p.1),
        ),
{
    let id = anchor_lang::solana_program::pubkey::Pubkey::new_from_array(program_id.bytes);
    match anchor_lang::solana_program::pubkey::Pubkey::try_find_program_address(seeds, &id) {
        Some((k, b)) => Some((Pubkey::new_from_array(k.to_bytes()), b)),
        None => None,
    }
}

/// Whether `address` is the address that this program derives from the seeds
/// (the bump seed among them).
pub open spec fn derived_from(seeds: Seq<Seq<u8>>, address: Seq<u8>) -> bool {
    &&& seeds_within_limits(seeds)
    &&& program_address(seeds, program_id_bytes()) == Some(address)
}

/// Whether `address` is the address that this program derives from the seeds.
pub fn derives_address(seeds: &[&[u8]], address: &Pubkey) -> (r: bool)
    ensures
        r == derived_from(seed_bytes(seeds@), address@),
{
    let id = crate::id();
    match create_program_address(seeds, &id) {
        Ok(k) => k.same(address),
        Err(_) => false,
    }
}

/// Whether `address` derives from the two seeds `a`, `b` and the bump seed.
pub fn derives_address2(a: &[u8], b: &[u8], bump: u8, address: &Pubkey) -> (r: bool)
    ensures
        r == derived_from(seq![a@, b@, seq![bump]], address@),
{
    let bump_seed: [u8; 1] = [bump];
    let seeds: [&[u8]; 3] = [a, b, bump_seed.as_slice()];
    let s = seeds.as_slice();
    proof {
        assert(bump_seed@ =~= seq![bump]);
        assert(seed_bytes(s@) =~= seq![a@, b@, seq![bump]]);
    }
    derives_address(s, address)
}

/// Whether `address` derives from the three seeds `a`, `b`, `c` and the bump
/// seed.
pub fn derives_address3(a: &[u8], b: &[u8], c: &[u8], bump: u8, address: &Pubkey) -> (r: bool)
    ensures
        r == derived_from(seq![a@, b@, c@, seq![bump]], address@),
{
    let bump_seed: [u8; 1] = [bump];
    let seeds: [&[u8]; 4] = [a, b, c, bump_seed.as_slice()];
    let s = seeds.as_slice();
    proof {
        assert(bump_seed@ =~= seq![bump]);
        assert(seed_bytes(s@) =~= seq![a@, b@, c@, seq![bump]]);
    }
    derives_address(s, address)
}

/// The canonical address and bump that this program derives from the two
/// seeds `a`, `b`.
pub fn find_address2(a: &[u8], b: &[u8]) -> (r: Option<(Pubkey, u8)>)
    ensures
        r is None <==> found_program_address(seq![a@, b@], program_id_bytes()) is None,
        r matches Some(p) ==> found_program_address(seq![a@, b@], program_id_bytes()) == Some(
            (p.0@, p.1),
        ),
{
    let seeds: [&[u8]; 2] = [a, b];
    let s = seeds.as_slice();
    proof {
        assert(seed_bytes(s@) =~= seq![a@, b@]);
    }
    let id = crate::id();
    try_find_program_address(s, &id)
}

/// The canonical address and bump that this program derives from the three
/// seeds `a`, `b`, `c`.
pub fn find_address3(a: &[u8], b: &[u8], c: &[u8]) -> (r: Option<(Pubkey, u8)>)
    ensures
        r is None <==> found_program_address(seq![a@, b@, c@], program_id_bytes()) is None,
        r matches Some(p) ==> found_program_address(seq![a@, b@, c@], program_id_bytes())
            == Some((p.0@, p.1)),
{
    let seeds: [&[u8]; 3] = [a, b, c];
    let s = seeds.as_slice();
    proof {
        assert(seed_bytes(s@) =~= seq![a@, b@, c@]);
    }
    let id = crate::id();
    try_find_program_address(s, &id)
}

/// The eight little-endian bytes of `x`.
pub open spec fn le_bytes(x: u64) -> Seq<u8> {
    Seq::new(8, |i: int| ((x as int / pow256(i)) % 256) as u8)
}

/// `256` to the power `i`.
pub open spec fn pow256(i: int) -> int
    decreases i,
{
    if i <= 0 {
        1
    } else {
        256 * pow256(i - 1)
    }
}

/// The eight little-endian bytes of `x`, as `u64::to_le_bytes` gives them.
pub fn u64_to_le_bytes(x: u64) -> (b: [u8; 8])
    ensures
        b@ == le_bytes(x),
{
    let mut b: [u8; 8] = [0u8; 8];
    let mut v: u64 = x;
    let mut i: usize = 0;
    while i < 8
        invariant
            0 <= i <= 8,
            b@.len() == 8,
            pow256(i as int) > 0,
            v as int == x as int / pow256(i as int),
            forall|j: int| 0 <= j < i ==> b@[j] == ((x as int / pow256(j)) % 256) as u8,
        decreases 8 - i,
    {
        b[i] = (v % 256) as u8;
        proof {
            vstd::arithmetic::div_mod::lemma_div_denominator(x as int, pow256(i as int), 256);
            assert(pow256(i as int + 1) == pow256(i as int) * 256);
        }
        v = v / 256;
        i = i + 1;
    }
    assert(b@ =~= le_bytes(x));
    b
}

/// The seeds of an agent account: the tag and the agent's authority.
pub open spec fn agent_seeds(authority: Seq<u8>) -> Seq<Seq<u8>> {
    seq![AGENT_SEED@, authority]
}

/// The seeds of a swarm account: the tag, its creator and its number.
pub open spec fn swarm_seeds(authority: Seq<u8>, swarm_id: u64) -> Seq<Seq<u8>> {
    seq![SWARM_SEED@, authority, le_bytes(swarm_id)]
}

/// The seeds of a membership account: the tag, the swarm and the agent.
pub open spec fn member_seeds(swarm: Seq<u8>, agent: Seq<u8>) -> Seq<Seq<u8>> {
    seq![MEMBER_SEED@, swarm, agent]
}

/// The seeds of a task account: the tag, the swarm and the task's number.
pub open spec fn task_seeds(swarm: Seq<u8>, task_id: u64) -> Seq<Seq<u8>> {
    seq![TASK_SEED@, swarm, le_bytes(task_id)]
}

/// The seeds of an approval account: the tag, the task and the approver.
pub open spec fn approval_seeds(task: Seq<u8>, agent: Seq<u8>) -> Seq<Seq<u8>> {
    seq![APPROVAL_SEED@, task, agent]
}

/// The seeds of a swarm's treasury: the tag and the swarm.
pub open spec fn treasury_seeds(swarm: Seq<u8>) -> Seq<Seq<u8>> {
    seq![TREASURY_SEED@, swarm]
}

/// The seeds followed by the bump seed.
pub open spec fn with_bump(seeds: Seq<Seq<u8>>, bump: u8) -> Seq<Seq<u8>> {
    seeds.push(seq![bump])
}

} // verus!
