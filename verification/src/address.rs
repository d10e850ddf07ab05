//! Where the records and vaults of a lock live.
//!
//! Nothing is looked up: the address of a registry follows from its owner
//! and mint, that of a lock record and of its escrow vault from owner, mint
//! and index, each under a tag of its own. Whoever knows those can compute
//! the address.

use crate::pubkey::Pubkey;
use crate::states::{LpLockCounter, LP_LOCK_COUNTER_SEED, USER_LOCK_SEED};
use crate::{AUTH_SEED, LP_LOCK_VAULT_SEED};
use vstd::bytes::{lemma_auto_spec_u64_to_from_le_bytes, spec_u64_to_le_bytes, u64_to_le_bytes};
use vstd::prelude::*;
use vstd::slice::slice_to_vec;
use vstd::string::StringSliceAdditionalSpecFns;

verus! {

/// The address that a program derives from `seeds`, and the bump that goes
/// with it; nothing where the seeds admit no address.
pub uninterp spec fn program_address(seeds: Seq<Seq<u8>>, program_id: Seq<u8>) -> Option<(Seq<u8>, u8)>;

/// Calls `anchor_lang::prelude::Pubkey::try_find_program_address`, after
/// `Pubkey::new_from_array` on the program's bytes, and takes the bytes of
/// the address found with `Pubkey::to_bytes`. Believed, not proved: the
/// result depends on nothing but the bytes of the seeds and of the program's
/// address. Off chain the function computes it and does not fail; it returns
/// nothing rather than panic where no address can be derived.
#[verifier::external_body]
pub(crate) fn try_find_program_address(seeds: &Vec<Vec<u8>>, program_id: &Pubkey) -> (found: Option<
    (Pubkey, u8),
>)
    ensures
        match found {
            Some((address, bump)) => program_address(seeds.deep_view(), program_id@) == Some(
                (address@, bump),
            ),
            None => program_address(seeds.deep_view(), program_id@) is None,
        },
{
    let slices: Vec<&[u8]> = seeds.iter().map(|seed| seed.as_slice()).collect();
    let program = anchor_lang::prelude::Pubkey::new_from_array(program_id.bytes);
    anchor_lang::prelude::Pubkey::try_find_program_address(&slices, &program).map(
        |(address, bump)| (Pubkey { bytes: address.to_bytes() }, bump),
    )
}

/// The seeds of the authority over every escrow vault: its tag.
pub open spec fn spec_authority_seeds() -> Seq<Seq<u8>> {
    seq![AUTH_SEED.spec_bytes()]
}

/// The seeds of the registry of an owner's locks on a mint: the tag, the
/// owner, the mint.
pub open spec fn spec_lp_lock_counter_seeds(owner: Pubkey, lp_mint: Pubkey) -> Seq<Seq<u8>> {
    seq![LP_LOCK_COUNTER_SEED.spec_bytes(), owner@, lp_mint@]
}

/// The seeds of the record of a lock: the tag, the owner, the mint, and the
/// index as eight bytes, lowest first.
pub open spec fn spec_user_lock_seeds(owner: Pubkey, lp_mint: Pubkey, lock_count: u64) -> Seq<
    Seq<u8>,
> {
    seq![USER_LOCK_SEED.spec_bytes(), owner@, lp_mint@, spec_u64_to_le_bytes(lock_count)]
}

/// The seeds of the escrow vault of a lock: the tag, the owner, the mint,
/// and the index as eight bytes, lowest first.
pub open spec fn spec_lp_lock_vault_seeds(owner: Pubkey, lp_mint: Pubkey, lock_count: u64) -> Seq<
    Seq<u8>,
> {
    seq![LP_LOCK_VAULT_SEED.spec_bytes(), owner@, lp_mint@, spec_u64_to_le_bytes(lock_count)]
}

/// The seeds of an address that is told by owner, mint and index under a
/// tag.
fn indexed_seeds(tag: &str, owner: &Pubkey, lp_mint: &Pubkey, lock_count: u64) -> (seeds: Vec<
    Vec<u8>,
>)
    ensures
        seeds.deep_view() == seq![
            tag.spec_bytes(),
            owner@,
            lp_mint@,
            spec_u64_to_le_bytes(lock_count),
        ],
{
    let mut seeds: Vec<Vec<u8>> = Vec::new();
    seeds.push(slice_to_vec(tag.as_bytes()));
    seeds.push(owner.to_vec());
    seeds.push(lp_mint.to_vec());
    seeds.push(u64_to_le_bytes(lock_count));
    assert(seeds.deep_view() =~~= seq![
        tag.spec_bytes(),
        owner@,
        lp_mint@,
        spec_u64_to_le_bytes(lock_count),
    ]);
    seeds
}

/// The seeds of the authority over every escrow vault.
pub fn authority_seeds() -> (seeds: Vec<Vec<u8>>)
    ensures
        seeds.deep_view() == spec_authority_seeds(),
{
    let mut seeds: Vec<Vec<u8>> = Vec::new();
    seeds.push(slice_to_vec(AUTH_SEED.as_bytes()));
    assert(seeds.deep_view() =~~= spec_authority_seeds());
    seeds
}

/// The seeds of the registry of an owner's locks on a mint.
pub fn lp_lock_counter_seeds(owner: &Pubkey, lp_mint: &Pubkey) -> (seeds: Vec<Vec<u8>>)
    ensures
        seeds.deep_view() == spec_lp_lock_counter_seeds(*owner, *lp_mint),
{
    let mut seeds: Vec<Vec<u8>> = Vec::new();
    seeds.push(slice_to_vec(LP_LOCK_COUNTER_SEED.as_bytes()));
    seeds.push(owner.to_vec());
    seeds.push(lp_mint.to_vec());
    assert(seeds.deep_view() =~~= spec_lp_lock_counter_seeds(*owner, *lp_mint));
    seeds
}

/// The seeds of the record of a lock.
pub fn user_lock_seeds(owner: &Pubkey, lp_mint: &Pubkey, lock_count: u64) -> (seeds: Vec<Vec<u8>>)
    ensures
        seeds.deep_view() == spec_user_lock_seeds(*owner, *lp_mint, lock_count),
{
    indexed_seeds(USER_LOCK_SEED, owner, lp_mint, lock_count)
}

/// The seeds of the escrow vault of a lock.
pub fn lp_lock_vault_seeds(owner: &Pubkey, lp_mint: &Pubkey, lock_count: u64) -> (seeds: Vec<
    Vec<u8>,
>)
    ensures
        seeds.deep_view() == spec_lp_lock_vault_seeds(*owner, *lp_mint, lock_count),
{
    indexed_seeds(LP_LOCK_VAULT_SEED, owner, lp_mint, lock_count)
}

/// The address of the authority over every escrow vault of the program, and
/// its bump.
pub fn find_lock_vault_authority(program_id: &Pubkey) -> (found: Option<(Pubkey, u8)>)
    ensures
        match found {
            Some((address, bump)) => program_address(spec_authority_seeds(), program_id@) == Some(
                (address@, bump),
            ),
            None => program_address(spec_authority_seeds(), program_id@) is None,
        },
{
    let seeds = authority_seeds();
    try_find_program_address(&seeds, program_id)
}

/// The address of the registry of an owner's locks on a mint, and its bump.
pub fn find_lp_lock_counter(owner: &Pubkey, lp_mint: &Pubkey, program_id: &Pubkey) -> (found:
    Option<(Pubkey, u8)>)
    ensures
        match found {
            Some((address, bump)) => program_address(
                spec_lp_lock_counter_seeds(*owner, *lp_mint),
                program_id@,
            ) == Some((address@, bump)),
            None => program_address(spec_lp_lock_counter_seeds(*owner, *lp_mint), program_id@)
                is None,
        },
{
    let seeds = lp_lock_counter_seeds(owner, lp_mint);
    try_find_program_address(&seeds, program_id)
}

/// The address of the record of a lock, and its bump.
pub fn find_user_lock(owner: &Pubkey, lp_mint: &Pubkey, lock_count: u64, program_id: &Pubkey) -> (found:
    Option<(Pubkey, u8)>)
    ensures
        match found {
            Some((address, bump)) => program_address(
                spec_user_lock_seeds(*owner, *lp_mint, lock_count),
                program_id@,
            ) == Some((address@, bump)),
            None => program_address(
                spec_user_lock_seeds(*owner, *lp_mint, lock_count),
                program_id@,
            ) is None,
        },
{
    let seeds = user_lock_seeds(owner, lp_mint, lock_count);
    try_find_program_address(&seeds, program_id)
}

/// The address of the escrow vault of a lock, and its bump.
pub fn find_lp_lock_vault(owner: &Pubkey, lp_mint: &Pubkey, lock_count: u64, program_id: &Pubkey) -> (found:
    Option<(Pubkey, u8)>)
    ensures
        match found {
            Some((address, bump)) => program_address(
                spec_lp_lock_vault_seeds(*owner, *lp_mint, lock_count),
                program_id@,
            ) == Some((address@, bump)),
            None => program_address(
                spec_lp_lock_vault_seeds(*owner, *lp_mint, lock_count),
                program_id@,
            ) is None,
        },
{
    let seeds = lp_lock_vault_seeds(owner, lp_mint, lock_count);
    try_find_program_address(&seeds, program_id)
}

/// The index that the owner's next lock will bear: one more than the
/// registry has counted, if that is still a number.
pub fn next_lock_count(counter: &LpLockCounter) -> (next: Option<u64>)
    ensures
        next == (if counter.total_lock_count < u64::MAX {
            Some((counter.total_lock_count + 1) as u64)
        } else {
            None
        }),
{
    counter.total_lock_count.checked_add(1)
}

/// What is hashed of the seeds when an address is derived: their bytes one
/// after the other. Seeds that run together to the same bytes would share
/// their address.
pub open spec fn seed_preimage(seeds: Seq<Seq<u8>>) -> Seq<u8> {
    seeds.flatten()
}

/// Two addresses with the same bytes are the same address.
pub proof fn lemma_pubkey_by_bytes(a: Pubkey, b: Pubkey)
    requires
        a@ == b@,
    ensures
        a == b,
{
    assert(a.bytes =~= b.bytes);
}

/// The bytes of one seed.
proof fn lemma_preimage_of_one(a: Seq<u8>)
    ensures
        seed_preimage(seq![a]) == a,
{
    let one = seq![a];
    assert(one.drop_first() =~= Seq::<Seq<u8>>::empty());
    reveal_with_fuel(Seq::flatten, 2);
    assert(one.flatten() =~= a);
}

/// The bytes of three seeds, run together.
proof fn lemma_preimage_of_three(a: Seq<u8>, b: Seq<u8>, c: Seq<u8>)
    ensures
        seed_preimage(seq![a, b, c]) == a + b + c,
{
    let three = seq![a, b, c];
    let two = seq![b, c];
    let one = seq![c];
    assert(three.drop_first() =~= two);
    assert(two.drop_first() =~= one);
    assert(one.drop_first() =~= Seq::<Seq<u8>>::empty());
    reveal_with_fuel(Seq::flatten, 4);
    assert(one.flatten() =~= c);
    assert(two.flatten() =~= b + c);
    assert(three.flatten() =~= a + b + c);
}

/// The bytes of four seeds, run together.
proof fn lemma_preimage_of_four(a: Seq<u8>, b: Seq<u8>, c: Seq<u8>, d: Seq<u8>)
    ensures
        seed_preimage(seq![a, b, c, d]) == a + b + c + d,
{
    let four = seq![a, b, c, d];
    assert(four.drop_first() =~= seq![b, c, d]);
    lemma_preimage_of_three(b, c, d);
    reveal_with_fuel(Seq::flatten, 2);
    assert(four.flatten() =~= a + b + c + d);
}

/// The tags are plain text of 17, 15, 9 and 13 bytes.
proof fn lemma_tag_lengths()
    ensures
        AUTH_SEED.spec_bytes().len() == 17,
        LP_LOCK_COUNTER_SEED.spec_bytes().len() == 15,
        USER_LOCK_SEED.spec_bytes().len() == 9,
        LP_LOCK_VAULT_SEED.spec_bytes().len() == 13,
{
    reveal_strlit("lock_lp_auth_seed");
    reveal_strlit("lp_lock_counter");
    reveal_strlit("user_lock");
    reveal_strlit("lock_lp_vault");
    broadcast use vstd::string::is_ascii_spec_bytes;

    assert(vstd::string::is_ascii(AUTH_SEED));
    assert(vstd::string::is_ascii(LP_LOCK_COUNTER_SEED));
    assert(vstd::string::is_ascii(USER_LOCK_SEED));
    assert(vstd::string::is_ascii(LP_LOCK_VAULT_SEED));
}

/// Seeds of a tag, an owner, a mint and an index run together to different
/// bytes for different owners, mints or indices: each has its fixed place
/// after the tag.
proof fn lemma_indexed_preimages_differ(
    tag: Seq<u8>,
    owner_a: Pubkey,
    lp_mint_a: Pubkey,
    lock_count_a: u64,
    owner_b: Pubkey,
    lp_mint_b: Pubkey,
    lock_count_b: u64,
)
    requires
        seed_preimage(seq![tag, owner_a@, lp_mint_a@, spec_u64_to_le_bytes(lock_count_a)])
            == seed_preimage(seq![tag, owner_b@, lp_mint_b@, spec_u64_to_le_bytes(lock_count_b)]),
    ensures
        owner_a == owner_b,
        lp_mint_a == lp_mint_b,
        lock_count_a == lock_count_b,
{
    let index_a = spec_u64_to_le_bytes(lock_count_a);
    let index_b = spec_u64_to_le_bytes(lock_count_b);
    lemma_preimage_of_four(tag, owner_a@, lp_mint_a@, index_a);
    lemma_preimage_of_four(tag, owner_b@, lp_mint_b@, index_b);
    lemma_auto_spec_u64_to_from_le_bytes();
    let run_a = tag + owner_a@ + lp_mint_a@ + index_a;
    let run_b = tag + owner_b@ + lp_mint_b@ + index_b;
    let n = tag.len() as int;
    assert(owner_a@ =~= run_a.subrange(n, n + 32));
    assert(owner_b@ =~= run_b.subrange(n, n + 32));
    assert(lp_mint_a@ =~= run_a.subrange(n + 32, n + 64));
    assert(lp_mint_b@ =~= run_b.subrange(n + 32, n + 64));
    assert(index_a =~= run_a.subrange(n + 64, n + 72));
    assert(index_b =~= run_b.subrange(n + 64, n + 72));
    lemma_pubkey_by_bytes(owner_a, owner_b);
    lemma_pubkey_by_bytes(lp_mint_a, lp_mint_b);
}

/// The records of two locks are never derived from the same bytes: what is
/// hashed for a record tells owner, mint and index.
pub proof fn lemma_user_lock_preimages_differ(
    owner_a: Pubkey,
    lp_mint_a: Pubkey,
    lock_count_a: u64,
    owner_b: Pubkey,
    lp_mint_b: Pubkey,
    lock_count_b: u64,
)
    requires
        seed_preimage(spec_user_lock_seeds(owner_a, lp_mint_a, lock_count_a)) == seed_preimage(
            spec_user_lock_seeds(owner_b, lp_mint_b, lock_count_b),
        ),
    ensures
        owner_a == owner_b,
        lp_mint_a == lp_mint_b,
        lock_count_a == lock_count_b,
{
    lemma_indexed_preimages_differ(
        USER_LOCK_SEED.spec_bytes(),
        owner_a,
        lp_mint_a,
        lock_count_a,
        owner_b,
        lp_mint_b,
        lock_count_b,
    );
}

/// The escrow vaults of two locks are never derived from the same bytes:
/// what is hashed for a vault tells owner, mint and index.
pub proof fn lemma_lp_lock_vault_preimages_differ(
    owner_a: Pubkey,
    lp_mint_a: Pubkey,
    lock_count_a: u64,
    owner_b: Pubkey,
    lp_mint_b: Pubkey,
    lock_count_b: u64,
)
    requires
        seed_preimage(spec_lp_lock_vault_seeds(owner_a, lp_mint_a, lock_count_a)) == seed_preimage(
            spec_lp_lock_vault_seeds(owner_b, lp_mint_b, lock_count_b),
        ),
    ensures
        owner_a == owner_b,
        lp_mint_a == lp_mint_b,
        lock_count_a == lock_count_b,
{
    lemma_indexed_preimages_differ(
        LP_LOCK_VAULT_SEED.spec_bytes(),
        owner_a,
        lp_mint_a,
        lock_count_a,
        owner_b,
        lp_mint_b,
        lock_count_b,
    );
}

/// Two registries are never derived from the same bytes: what is hashed
/// for a registry tells owner and mint.
pub proof fn lemma_lp_lock_counter_preimages_differ(
    owner_a: Pubkey,
    lp_mint_a: Pubkey,
    owner_b: Pubkey,
    lp_mint_b: Pubkey,
)
    requires
        seed_preimage(spec_lp_lock_counter_seeds(owner_a, lp_mint_a)) == seed_preimage(
            spec_lp_lock_counter_seeds(owner_b, lp_mint_b),
        ),
    ensures
        owner_a == owner_b,
        lp_mint_a == lp_mint_b,
{
    let tag = LP_LOCK_COUNTER_SEED.spec_bytes();
    lemma_preimage_of_three(tag, owner_a@, lp_mint_a@);
    lemma_preimage_of_three(tag, owner_b@, lp_mint_b@);
    let run_a = tag + owner_a@ + lp_mint_a@;
    let run_b = tag + owner_b@ + lp_mint_b@;
    let n = tag.len() as int;
    assert(owner_a@ =~= run_a.subrange(n, n + 32));
    assert(owner_b@ =~= run_b.subrange(n, n + 32));
    assert(lp_mint_a@ =~= run_a.subrange(n + 32, n + 64));
    assert(lp_mint_b@ =~= run_b.subrange(n + 32, n + 64));
    lemma_pubkey_by_bytes(owner_a, owner_b);
    lemma_pubkey_by_bytes(lp_mint_a, lp_mint_b);
}

/// A record, a vault, a registry and the authority are never derived from
/// the same bytes as one of another kind, whoever owns them: what is hashed
/// for each kind has a length of its own.
pub proof fn lemma_preimages_of_kinds_differ(
    owner_a: Pubkey,
    lp_mint_a: Pubkey,
    lock_count_a: u64,
    owner_b: Pubkey,
    lp_mint_b: Pubkey,
    lock_count_b: u64,
)
    ensures
        seed_preimage(spec_user_lock_seeds(owner_a, lp_mint_a, lock_count_a)) != seed_preimage(
            spec_lp_lock_vault_seeds(owner_b, lp_mint_b, lock_count_b),
        ),
        seed_preimage(spec_user_lock_seeds(owner_a, lp_mint_a, lock_count_a)) != seed_preimage(
            spec_lp_lock_counter_seeds(owner_b, lp_mint_b),
        ),
        seed_preimage(spec_lp_lock_vault_seeds(owner_a, lp_mint_a, lock_count_a)) != seed_preimage(
            spec_lp_lock_counter_seeds(owner_b, lp_mint_b),
        ),
        seed_preimage(spec_authority_seeds()) != seed_preimage(
            spec_user_lock_seeds(owner_b, lp_mint_b, lock_count_b),
        ),
        seed_preimage(spec_authority_seeds()) != seed_preimage(
            spec_lp_lock_vault_seeds(owner_b, lp_mint_b, lock_count_b),
        ),
        seed_preimage(spec_authority_seeds()) != seed_preimage(
            spec_lp_lock_counter_seeds(owner_b, lp_mint_b),
        ),
{
    lemma_tag_lengths();
    lemma_auto_spec_u64_to_from_le_bytes();
    lemma_preimage_of_one(AUTH_SEED.spec_bytes());
    lemma_preimage_of_four(
        USER_LOCK_SEED.spec_bytes(),
        owner_a@,
        lp_mint_a@,
        spec_u64_to_le_bytes(lock_count_a),
    );
    lemma_preimage_of_four(
        USER_LOCK_SEED.spec_bytes(),
        owner_b@,
        lp_mint_b@,
        spec_u64_to_le_bytes(lock_count_b),
    );
    lemma_preimage_of_four(
        LP_LOCK_VAULT_SEED.spec_bytes(),
        owner_a@,
        lp_mint_a@,
        spec_u64_to_le_bytes(lock_count_a),
    );
    lemma_preimage_of_four(
        LP_LOCK_VAULT_SEED.spec_bytes(),
        owner_b@,
        lp_mint_b@,
        spec_u64_to_le_bytes(lock_count_b),
    );
    lemma_preimage_of_three(LP_LOCK_COUNTER_SEED.spec_bytes(), owner_b@, lp_mint_b@);
    assert(seed_preimage(spec_authority_seeds()).len() == 17);
    assert(seed_preimage(spec_user_lock_seeds(owner_a, lp_mint_a, lock_count_a)).len() == 81);
    assert(seed_preimage(spec_user_lock_seeds(owner_b, lp_mint_b, lock_count_b)).len() == 81);
    assert(seed_preimage(spec_lp_lock_vault_seeds(owner_a, lp_mint_a, lock_count_a)).len() == 85);
    assert(seed_preimage(spec_lp_lock_vault_seeds(owner_b, lp_mint_b, lock_count_b)).len() == 85);
    assert(seed_preimage(spec_lp_lock_counter_seeds(owner_b, lp_mint_b)).len() == 79);
}

} // verus!
