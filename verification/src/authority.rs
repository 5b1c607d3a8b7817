//! Capability authority derivation: the signer-less escrow identities the
//! engine alone can act as.
//!
//! A plan's escrow authority is derived from the namespace tag `"plan"`, the
//! plan owner's address and the plan code; a subscription's from the tag
//! `"subscription"`, the subscriber's address and the plan's address. The
//! derivation is deterministic, so any party can reproduce the address from
//! the plain inputs, yet the derived identity has no private key: only the
//! engine, re-deriving it inside an authorized operation, can act as it.
//! The two namespaces can never collide, since their seed lists differ in
//! the leading tag (`lemma_namespace_separation`).

use vstd::prelude::*;

use crate::state::{addr_bytes, Address};

verus! {

/// The fixed fee-collector identity. Every taxed leg is paid to a token
/// account held by this address; it is compiled in, not configurable.
pub open spec fn spec_fee_collector() -> Address {
    Address { w0: 0xf8c192eafc908473, w1: 0x69e5548cb30d1bd1, w2: 0x91af2f9ac4de1796, w3: 0xf64596ee3669da65 }
}

/// The fixed fee-collector identity (see `spec_fee_collector`).
pub fn fee_collector() -> (a: Address)
    ensures
        a == spec_fee_collector(),
{
    Address { w0: 0xf8c192eafc908473, w1: 0x69e5548cb30d1bd1, w2: 0x91af2f9ac4de1796, w3: 0xf64596ee3669da65 }
}

/// The engine's own program identity, under which authorities are derived.
pub open spec fn spec_program_id() -> Address {
    Address { w0: 0x2b96f64f94faad56, w1: 0xa0b865aad6e05ae4, w2: 0x92e73ec25881bda2, w3: 0xbed1e052204c35e2 }
}

/// The engine's own program identity (see `spec_program_id`).
pub fn program_id() -> (a: Address)
    ensures
        a == spec_program_id(),
{
    Address { w0: 0x2b96f64f94faad56, w1: 0xa0b865aad6e05ae4, w2: 0x92e73ec25881bda2, w3: 0xbed1e052204c35e2 }
}

/// The namespace tag of plan authorities: the bytes of `"plan"`.
pub open spec fn plan_seed_tag() -> Seq<u8> {
    seq![112u8, 108u8, 97u8, 110u8]
}

/// The namespace tag of subscription authorities: the bytes of
/// `"subscription"`.
pub open spec fn subscription_seed_tag() -> Seq<u8> {
    seq![115u8, 117u8, 98u8, 115u8, 99u8, 114u8, 105u8, 112u8, 116u8, 105u8, 111u8, 110u8]
}

/// The seed list a plan authority is derived from.
pub open spec fn spec_plan_seeds(owner: Address, code: Seq<u8>) -> Seq<Seq<u8>> {
    seq![plan_seed_tag(), addr_bytes(owner), code]
}

/// The seed list a subscription authority is derived from.
pub open spec fn spec_subscription_seeds(subscriber: Address, plan_key: Address) -> Seq<Seq<u8>> {
    seq![subscription_seed_tag(), addr_bytes(subscriber), addr_bytes(plan_key)]
}

/// A plan seed list and a subscription seed list always differ: the leading
/// namespace tags have different lengths. Authorities of the two kinds are
/// therefore derived from distinct inputs for every choice of entity keys.
pub proof fn lemma_namespace_separation(
    owner: Address,
    code: Seq<u8>,
    subscriber: Address,
    plan_key: Address,
)
    ensures
        spec_plan_seeds(owner, code) != spec_subscription_seeds(subscriber, plan_key),
{
    assert(spec_plan_seeds(owner, code)[0].len() == 4);
    assert(spec_subscription_seeds(subscriber, plan_key)[0].len() == 12);
}

/// Two addresses with the same bytes are the same address: `addr_bytes`
/// loses nothing.
pub proof fn lemma_addr_bytes_injective(a: Address, b: Address)
    requires
        addr_bytes(a) == addr_bytes(b),
    ensures
        a == b,
{
    vstd::bytes::lemma_auto_spec_u64_to_from_le_bytes();
    assert(addr_bytes(a).subrange(0, 8) =~= vstd::bytes::spec_u64_to_le_bytes(a.w0));
    assert(addr_bytes(b).subrange(0, 8) =~= vstd::bytes::spec_u64_to_le_bytes(b.w0));
    assert(addr_bytes(a).subrange(8, 16) =~= vstd::bytes::spec_u64_to_le_bytes(a.w1));
    assert(addr_bytes(b).subrange(8, 16) =~= vstd::bytes::spec_u64_to_le_bytes(b.w1));
    assert(addr_bytes(a).subrange(16, 24) =~= vstd::bytes::spec_u64_to_le_bytes(a.w2));
    assert(addr_bytes(b).subrange(16, 24) =~= vstd::bytes::spec_u64_to_le_bytes(b.w2));
    assert(addr_bytes(a).subrange(24, 32) =~= vstd::bytes::spec_u64_to_le_bytes(a.w3));
    assert(addr_bytes(b).subrange(24, 32) =~= vstd::bytes::spec_u64_to_le_bytes(b.w3));
}

/// A plan authority is scoped to exactly one `(owner, code)` pair: distinct
/// pairs always derive from distinct seed lists.
pub proof fn lemma_plan_seeds_injective(o1: Address, c1: Seq<u8>, o2: Address, c2: Seq<u8>)
    requires
        spec_plan_seeds(o1, c1) == spec_plan_seeds(o2, c2),
    ensures
        o1 == o2,
        c1 == c2,
{
    assert(spec_plan_seeds(o1, c1)[1] == spec_plan_seeds(o2, c2)[1]);
    lemma_addr_bytes_injective(o1, o2);
    assert(spec_plan_seeds(o1, c1)[2] == spec_plan_seeds(o2, c2)[2]);
}

/// A subscription authority is scoped to exactly one `(subscriber, plan)`
/// pair: distinct pairs always derive from distinct seed lists.
pub proof fn lemma_subscription_seeds_injective(s1: Address, p1: Address, s2: Address, p2: Address)
    requires
        spec_subscription_seeds(s1, p1) == spec_subscription_seeds(s2, p2),
    ensures
        s1 == s2,
        p1 == p2,
{
    assert(spec_subscription_seeds(s1, p1)[1] == spec_subscription_seeds(s2, p2)[1]);
    lemma_addr_bytes_injective(s1, s2);
    assert(spec_subscription_seeds(s1, p1)[2] == spec_subscription_seeds(s2, p2)[2]);
    lemma_addr_bytes_injective(p1, p2);
}

/// The 32 bytes of an address, as `addr_bytes` lays them out.
pub fn address_to_bytes(a: &Address) -> (r: Vec<u8>)
    ensures
        r@ == addr_bytes(*a),
        r@.len() == 32,
{
    let mut r = vstd::bytes::u64_to_le_bytes(a.w0);
    let mut r1 = vstd::bytes::u64_to_le_bytes(a.w1);
    let mut r2 = vstd::bytes::u64_to_le_bytes(a.w2);
    let mut r3 = vstd::bytes::u64_to_le_bytes(a.w3);
    r.append(&mut r1);
    r.append(&mut r2);
    r.append(&mut r3);
    r
}

/// The address whose `addr_bytes` are the given 32 bytes.
pub fn address_from_bytes(b: &[u8]) -> (r: Address)
    requires
        b@.len() == 32,
    ensures
        addr_bytes(r) == b@,
{
    let w0 = vstd::bytes::u64_from_le_bytes(vstd::slice::slice_subrange(b, 0, 8));
    let w1 = vstd::bytes::u64_from_le_bytes(vstd::slice::slice_subrange(b, 8, 16));
    let w2 = vstd::bytes::u64_from_le_bytes(vstd::slice::slice_subrange(b, 16, 24));
    let w3 = vstd::bytes::u64_from_le_bytes(vstd::slice::slice_subrange(b, 24, 32));
    let r = Address { w0, w1, w2, w3 };
    proof {
        vstd::bytes::lemma_auto_spec_u64_to_from_le_bytes();
        assert(addr_bytes(r) =~= b@);
    }
    r
}

/// What the ledger's program-address derivation returns for a seed list and
/// a program id: a derived 32-byte address with its bump seed, or nothing
/// when the seeds exceed the ledger's limits or no bump yields a valid
/// address. A function of its arguments alone.
pub uninterp spec fn program_address_of(seeds: Seq<Seq<u8>>, program_id: Seq<u8>) -> Option<
    (Seq<u8>, u8),
>;

/// Relies on solana_program's `Pubkey::try_find_program_address`: the
/// derived address and bump seed are computed from the seed list and the
/// program id alone, and `None` comes back when the seeds exceed the
/// ledger's limits or, statistically improbably, no bump seed yields a
/// valid address.
#[verifier::external_body]
fn try_find_program_address(seeds: &Vec<Vec<u8>>, program_id: &Address) -> (r: Option<
    (Address, u8),
>)
    ensures
        (match r {
            Some(p) => {
                &&& program_address_of(
                    seeds@.map_values(|v: Vec<u8>| v@),
                    addr_bytes(*program_id),
                ) matches Some(q)
                &&& addr_bytes(p.0) == q.0
                &&& p.1 == q.1
            },
            None => program_address_of(
                seeds@.map_values(|v: Vec<u8>| v@),
                addr_bytes(*program_id),
            ) is None,
        }),
{
    let refs: Vec<&[u8]> = seeds.iter().map(|s| s.as_slice()).collect();
    let pid_arr: [u8; 32] = address_to_bytes(program_id).try_into().unwrap();
    let pid = solana_program::pubkey::Pubkey::new_from_array(pid_arr);
    match solana_program::pubkey::Pubkey::try_find_program_address(&refs, &pid) {
        Some((pk, bump)) => Some((address_from_bytes(&pk.to_bytes()), bump)),
        None => None,
    }
}

/// Builds the plan seed list of `spec_plan_seeds`.
fn plan_seeds(owner: &Address, code: &Vec<u8>) -> (r: Vec<Vec<u8>>)
    ensures
        r@.map_values(|v: Vec<u8>| v@) == spec_plan_seeds(*owner, code@),
{
    let tag: Vec<u8> = vec![112u8, 108u8, 97u8, 110u8];
    let r: Vec<Vec<u8>> = vec![tag, address_to_bytes(owner), code.clone()];
    proof {
        assert(r@.map_values(|v: Vec<u8>| v@) =~= spec_plan_seeds(*owner, code@));
    }
    r
}

/// Builds the subscription seed list of `spec_subscription_seeds`.
fn subscription_seeds(subscriber: &Address, plan_key: &Address) -> (r: Vec<Vec<u8>>)
    ensures
        r@.map_values(|v: Vec<u8>| v@) == spec_subscription_seeds(*subscriber, *plan_key),
{
    let tag: Vec<u8> = vec![
        115u8, 117u8, 98u8, 115u8, 99u8, 114u8, 105u8, 112u8, 116u8, 105u8, 111u8, 110u8,
    ];
    let r: Vec<Vec<u8>> = vec![tag, address_to_bytes(subscriber), address_to_bytes(plan_key)];
    proof {
        assert(r@.map_values(|v: Vec<u8>| v@) =~= spec_subscription_seeds(*subscriber, *plan_key));
    }
    r
}

/// Derives the escrow authority of the plan `(owner, code)`: the recorded
/// holder of the plan's settlement account.
pub fn derive_plan_authority(owner: &Address, code: &Vec<u8>, pid: &Address) -> (r: Option<
    (Address, u8),
>)
    ensures
        (match r {
            Some(p) => {
                &&& program_address_of(
                    spec_plan_seeds(*owner, code@),
                    addr_bytes(*pid),
                ) matches Some(q)
                &&& addr_bytes(p.0) == q.0
                &&& p.1 == q.1
            },
            None => program_address_of(spec_plan_seeds(*owner, code@), addr_bytes(*pid)) is None,
        }),
{
    let seeds = plan_seeds(owner, code);
    try_find_program_address(&seeds, pid)
}

/// Derives the escrow authority of the subscription `(subscriber, plan)`:
/// the delegate authorized to pull from the subscriber's funding account.
pub fn derive_subscription_authority(
    subscriber: &Address,
    plan_key: &Address,
    pid: &Address,
) -> (r: Option<(Address, u8)>)
    ensures
        (match r {
            Some(p) => {
                &&& program_address_of(
                    spec_subscription_seeds(*subscriber, *plan_key),
                    addr_bytes(*pid),
                ) matches Some(q)
                &&& addr_bytes(p.0) == q.0
                &&& p.1 == q.1
            },
            None => program_address_of(
                spec_subscription_seeds(*subscriber, *plan_key),
                addr_bytes(*pid),
            ) is None,
        }),
{
    let seeds = subscription_seeds(subscriber, plan_key);
    try_find_program_address(&seeds, pid)
}

} // verus!
