//! Storage addresses and their derivation from semantic identifiers.

use anchor_lang::prelude::Pubkey;
use vstd::bytes::{lemma_auto_spec_u64_to_from_le_bytes, spec_u64_to_le_bytes, u64_to_le_bytes};
use vstd::prelude::*;
use vstd::utf8::{encode_utf8, encode_utf8_decode_utf8, is_ascii_chars_encode_utf8};

verus! {

/// Number of bytes in a storage address.
pub const ADDRESS_LEN: usize = 32;

/// Number of seeds at which the derivation stops finding addresses.
pub const MAX_SEEDS: usize = 16;

/// Largest number of bytes a single seed may hold.
pub const MAX_SEED_LEN: usize = 32;

/// A fixed-length storage address.
#[derive(Clone, Copy, Debug)]
pub struct Address {
    pub bytes: [u8; 32],
}

impl View for Address {
    type V = Seq<u8>;

    /// The bytes of the address.
    open spec fn view(&self) -> Seq<u8> {
        self.bytes@
    }
}

impl PartialEq for Address {
    fn eq(&self, other: &Self) -> (equal: bool) {
        let mut i: usize = 0;
        while i < ADDRESS_LEN
            invariant
                i <= ADDRESS_LEN,
                forall|j: int| 0 <= j < i ==> self.bytes@[j] == other.bytes@[j],
            decreases ADDRESS_LEN - i,
        {
            if self.bytes[i] != other.bytes[i] {
                return false;
            }
            i += 1;
        }
        proof {
            assert(self@ =~= other@);
        }
        true
    }
}

impl vstd::std_specs::cmp::PartialEqSpecImpl for Address {
    open spec fn obeys_eq_spec() -> bool {
        true
    }

    open spec fn eq_spec(&self, other: &Self) -> bool {
        self@ == other@
    }
}

impl Eq for Address {

}

/// The bytes of each seed, in order.
pub open spec fn seeds_view(seeds: &[&[u8]]) -> Seq<Seq<u8>> {
    Seq::new(seeds@.len(), |i: int| seeds@[i]@)
}

/// True when the derivation is bound to find no address for these seeds:
/// there are too many of them, or one of them is too long.
pub open spec fn seeds_malformed(seeds: Seq<Seq<u8>>) -> bool {
    ||| seeds.len() >= MAX_SEEDS
    ||| exists|i: int| 0 <= i < seeds.len() && (#[trigger] seeds[i]).len() > MAX_SEED_LEN
}

/// The program-derived address and bump seed that
/// `Pubkey::try_find_program_address` finds for `seeds` under `program_id`,
/// or `None` where it finds none.
pub uninterp spec fn program_address(seeds: Seq<Seq<u8>>, program_id: Seq<u8>) -> Option<
    (Seq<u8>, u8),
>;

/// Calls `Pubkey::try_find_program_address` of `anchor_lang`. Nothing is
/// proved of it. Its contract claims that the result is a function of the
/// seeds and the program id alone, the one named `program_address`, and that
/// no address is found for sixteen seeds or more, nor where a seed is longer
/// than 32 bytes.
#[verifier::external_body]
fn try_find_program_address(seeds: &[&[u8]], program_id: &[u8; 32]) -> (found: Option<
    ([u8; 32], u8),
>)
    ensures
        match found {
            Some((address, bump)) => program_address(seeds_view(seeds), program_id@) == Some(
                (address@, bump),
            ),
            None => program_address(seeds_view(seeds), program_id@) is None,
        },
        seeds_malformed(seeds_view(seeds)) ==> found is None,
{
    let id = Pubkey::new_from_array(*program_id);
    match Pubkey::try_find_program_address(seeds, &id) {
        Some((address, bump)) => Some((address.to_bytes(), bump)),
        None => None,
    }
}

/// The seeds handed to the derivation: the namespace tag, then the components.
pub open spec fn derivation_seeds(namespace: Seq<u8>, components: Seq<Seq<u8>>) -> Seq<Seq<u8>> {
    seq![namespace] + components
}

/// The address derived under `program_id` for a namespace tag and key
/// components, or `None` where the derivation finds none.
pub open spec fn derived_address(
    program_id: Seq<u8>,
    namespace: Seq<u8>,
    components: Seq<Seq<u8>>,
) -> Option<Seq<u8>> {
    match program_address(derivation_seeds(namespace, components), program_id) {
        Some((address, _)) => Some(address),
        None => None,
    }
}

/// The bytes of an address that may be missing.
pub open spec fn address_view(address: Option<Address>) -> Option<Seq<u8>> {
    match address {
        Some(a) => Some(a@),
        None => None,
    }
}

/// Derives storage addresses within one program's address space.
pub struct AddressDeriver {
    program_id: [u8; 32],
}

impl AddressDeriver {
    /// The program id that scopes every address this deriver yields.
    pub closed spec fn program_id(&self) -> Seq<u8> {
        self.program_id@
    }

    /// A deriver of addresses under `program_id`.
    pub fn new(program_id: [u8; 32]) -> (deriver: Self)
        ensures
            deriver.program_id() == program_id@,
    {
        AddressDeriver { program_id }
    }

    /// Derives the address for `namespace` and `components`. None is found
    /// where the tag and the components make sixteen seeds or more, or one
    /// of them is longer than 32 bytes.
    pub fn derive(&self, namespace: &str, components: &[&[u8]]) -> (address: Option<Address>)
        ensures
            address_view(address) == derived_address(
                self.program_id(),
                encode_utf8(namespace@),
                seeds_view(components),
            ),
            seeds_malformed(derivation_seeds(encode_utf8(namespace@), seeds_view(components)))
                ==> address is None,
    {
        let mut seeds: Vec<&[u8]> = Vec::new();
        seeds.push(namespace.as_bytes());
        let n = components.len();
        let mut i: usize = 0;
        while i < n
            invariant
                n == components@.len(),
                i <= n,
                seeds@.len() == i + 1,
                seeds@[0]@ == encode_utf8(namespace@),
                forall|k: int| 1 <= k <= i ==> (#[trigger] seeds@[k])@ == components@[k - 1]@,
            decreases n - i,
        {
            seeds.push(components[i]);
            i += 1;
        }
        let seeds = seeds.as_slice();
        proof {
            assert(seeds_view(seeds) =~= derivation_seeds(
                encode_utf8(namespace@),
                seeds_view(components),
            ));
        }
        match try_find_program_address(seeds, &self.program_id) {
            Some((bytes, _)) => Some(Address { bytes }),
            None => None,
        }
    }

    /// Derives the address of the poll `poll_id`.
    pub fn derive_for_poll(&self, poll_id: u64) -> (address: Option<Address>)
        ensures
            address_view(address) == poll_address(self.program_id(), poll_id),
    {
        let id_bytes = u64_to_le_bytes(poll_id);
        let mut components: Vec<&[u8]> = Vec::new();
        components.push(id_bytes.as_slice());
        let components = components.as_slice();
        proof {
            assert(seeds_view(components) =~= poll_components(poll_id));
        }
        self.derive("poll", components)
    }

    /// Derives the address of the candidate `candidate_name` of the poll
    /// `poll_id`. None is found for a name longer than 32 bytes.
    pub fn derive_for_candidate(&self, poll_id: u64, candidate_name: &str) -> (address: Option<
        Address,
    >)
        ensures
            address_view(address) == candidate_address(
                self.program_id(),
                poll_id,
                candidate_name@,
            ),
            encode_utf8(candidate_name@).len() > MAX_SEED_LEN ==> address is None,
    {
        let id_bytes = u64_to_le_bytes(poll_id);
        let mut components: Vec<&[u8]> = Vec::new();
        components.push(id_bytes.as_slice());
        components.push(candidate_name.as_bytes());
        let components = components.as_slice();
        proof {
            assert(seeds_view(components) =~= candidate_components(poll_id, candidate_name@));
            let seeds = derivation_seeds(
                candidate_namespace(),
                candidate_components(poll_id, candidate_name@),
            );
            assert(seeds[2] == encode_utf8(candidate_name@));
        }
        self.derive("candidate", components)
    }
}

/// The namespace tag of poll addresses.
pub open spec fn poll_namespace() -> Seq<u8> {
    encode_utf8("poll"@)
}

/// The namespace tag of candidate addresses.
pub open spec fn candidate_namespace() -> Seq<u8> {
    encode_utf8("candidate"@)
}

/// The key components of a poll: its id, as eight little-endian bytes.
pub open spec fn poll_components(poll_id: u64) -> Seq<Seq<u8>> {
    seq![spec_u64_to_le_bytes(poll_id)]
}

/// The key components of a candidate: the id of its poll, as eight
/// little-endian bytes, then the bytes of its name.
pub open spec fn candidate_components(poll_id: u64, candidate_name: Seq<char>) -> Seq<Seq<u8>> {
    seq![spec_u64_to_le_bytes(poll_id), encode_utf8(candidate_name)]
}

/// The address of the poll `poll_id` under `program_id`.
pub open spec fn poll_address(program_id: Seq<u8>, poll_id: u64) -> Option<Seq<u8>> {
    derived_address(program_id, poll_namespace(), poll_components(poll_id))
}

/// The address of the candidate `candidate_name` of the poll `poll_id` under
/// `program_id`.
pub open spec fn candidate_address(
    program_id: Seq<u8>,
    poll_id: u64,
    candidate_name: Seq<char>,
) -> Option<Seq<u8>> {
    derived_address(
        program_id,
        candidate_namespace(),
        candidate_components(poll_id, candidate_name),
    )
}

/// The bytes that a derivation digests for its seeds: one seed after the
/// other, with nothing in between.
pub open spec fn seed_material(seeds: Seq<Seq<u8>>) -> Seq<u8> {
    seeds.flatten()
}

/// The seed material of a poll.
pub open spec fn poll_material(poll_id: u64) -> Seq<u8> {
    seed_material(derivation_seeds(poll_namespace(), poll_components(poll_id)))
}

/// The seed material of a candidate.
pub open spec fn candidate_material(poll_id: u64, candidate_name: Seq<char>) -> Seq<u8> {
    seed_material(
        derivation_seeds(candidate_namespace(), candidate_components(poll_id, candidate_name)),
    )
}

/// The two namespace tags, by their lengths and first bytes.
proof fn lemma_namespaces()
    ensures
        poll_namespace().len() == 4,
        poll_namespace()[0] == 112u8,
        candidate_namespace().len() == 9,
        candidate_namespace()[0] == 99u8,
{
    reveal_strlit("poll");
    reveal_strlit("candidate");
    is_ascii_chars_encode_utf8("poll"@);
    is_ascii_chars_encode_utf8("candidate"@);
}

/// The seed material of a poll is its tag, then its id.
proof fn lemma_poll_material(poll_id: u64)
    ensures
        poll_material(poll_id) == poll_namespace() + spec_u64_to_le_bytes(poll_id),
{
    let seeds = derivation_seeds(poll_namespace(), poll_components(poll_id));
    assert(seeds =~= seq![poll_namespace()].push(spec_u64_to_le_bytes(poll_id)));
    seq![poll_namespace()].lemma_flatten_one_element();
    seq![poll_namespace()].lemma_flatten_push(spec_u64_to_le_bytes(poll_id));
}

/// The seed material of a candidate is its tag, then the id of its poll,
/// then its name.
proof fn lemma_candidate_material(poll_id: u64, candidate_name: Seq<char>)
    ensures
        candidate_material(poll_id, candidate_name) == candidate_namespace() + spec_u64_to_le_bytes(
            poll_id,
        ) + encode_utf8(candidate_name),
{
    let id = spec_u64_to_le_bytes(poll_id);
    let name = encode_utf8(candidate_name);
    let seeds = derivation_seeds(
        candidate_namespace(),
        candidate_components(poll_id, candidate_name),
    );
    assert(seeds =~= seq![candidate_namespace()].push(id).push(name));
    seq![candidate_namespace()].lemma_flatten_one_element();
    seq![candidate_namespace()].lemma_flatten_push(id);
    seq![candidate_namespace()].push(id).lemma_flatten_push(name);
}

/// Two polls with the same seed material are the same poll.
pub proof fn lemma_poll_material_injective(a: u64, b: u64)
    requires
        poll_material(a) == poll_material(b),
    ensures
        a == b,
{
    lemma_namespaces();
    lemma_poll_material(a);
    lemma_poll_material(b);
    lemma_auto_spec_u64_to_from_le_bytes();
    // The id follows the four bytes of the tag.
    assert(spec_u64_to_le_bytes(a) =~= poll_material(a).subrange(4, 12));
    assert(spec_u64_to_le_bytes(b) =~= poll_material(b).subrange(4, 12));
}

/// Two candidates with the same seed material belong to the same poll and
/// bear the same name.
pub proof fn lemma_candidate_material_injective(
    poll_a: u64,
    name_a: Seq<char>,
    poll_b: u64,
    name_b: Seq<char>,
)
    requires
        candidate_material(poll_a, name_a) == candidate_material(poll_b, name_b),
    ensures
        poll_a == poll_b,
        name_a == name_b,
{
    lemma_namespaces();
    lemma_candidate_material(poll_a, name_a);
    lemma_candidate_material(poll_b, name_b);
    lemma_auto_spec_u64_to_from_le_bytes();
    let ma = candidate_material(poll_a, name_a);
    let mb = candidate_material(poll_b, name_b);
    // The id follows the nine bytes of the tag, and the name follows the id.
    assert(spec_u64_to_le_bytes(poll_a) =~= ma.subrange(9, 17));
    assert(spec_u64_to_le_bytes(poll_b) =~= mb.subrange(9, 17));
    assert(encode_utf8(name_a) =~= ma.subrange(17, ma.len() as int));
    assert(encode_utf8(name_b) =~= mb.subrange(17, mb.len() as int));
    encode_utf8_decode_utf8(name_a);
    encode_utf8_decode_utf8(name_b);
}

/// No poll shares its seed material with a candidate.
pub proof fn lemma_poll_candidate_material_distinct(
    poll_id: u64,
    candidate_poll_id: u64,
    candidate_name: Seq<char>,
)
    ensures
        poll_material(poll_id) != candidate_material(candidate_poll_id, candidate_name),
{
    // The tags differ in their first byte, and so does the material.
    lemma_namespaces();
    lemma_poll_material(poll_id);
    lemma_candidate_material(candidate_poll_id, candidate_name);
    assert(poll_material(poll_id)[0] == 112u8);
    assert(candidate_material(candidate_poll_id, candidate_name)[0] == 99u8);
}

/// True when the derivation finds one address for two sets of seeds whose
/// seed material differs.
pub open spec fn collide(program_id: Seq<u8>, first: Seq<Seq<u8>>, second: Seq<Seq<u8>>) -> bool {
    &&& seed_material(first) != seed_material(second)
    &&& program_address(first, program_id) matches Some((address, _))
    &&& program_address(second, program_id) matches Some((other, _))
    &&& address == other
}

/// Two polls live apart: they have the same address only if they are the
/// same poll, or the derivation collides on their seeds.
pub proof fn lemma_polls_apart(program_id: Seq<u8>, a: u64, b: u64)
    requires
        poll_address(program_id, a) is Some,
        poll_address(program_id, a) == poll_address(program_id, b),
    ensures
        a == b || collide(
            program_id,
            derivation_seeds(poll_namespace(), poll_components(a)),
            derivation_seeds(poll_namespace(), poll_components(b)),
        ),
{
    if poll_material(a) == poll_material(b) {
        lemma_poll_material_injective(a, b);
    }
}

/// Two candidates live apart: they have the same address only if they belong
/// to the same poll and bear the same name, or the derivation collides on
/// their seeds.
pub proof fn lemma_candidates_apart(
    program_id: Seq<u8>,
    poll_a: u64,
    name_a: Seq<char>,
    poll_b: u64,
    name_b: Seq<char>,
)
    requires
        candidate_address(program_id, poll_a, name_a) is Some,
        candidate_address(program_id, poll_a, name_a) == candidate_address(
            program_id,
            poll_b,
            name_b,
        ),
    ensures
        (poll_a == poll_b && name_a == name_b) || collide(
            program_id,
            derivation_seeds(candidate_namespace(), candidate_components(poll_a, name_a)),
            derivation_seeds(candidate_namespace(), candidate_components(poll_b, name_b)),
        ),
{
    if candidate_material(poll_a, name_a) == candidate_material(poll_b, name_b) {
        lemma_candidate_material_injective(poll_a, name_a, poll_b, name_b);
    }
}

/// A poll and a candidate live apart: they have the same address only if the
/// derivation collides on their seeds.
pub proof fn lemma_poll_and_candidate_apart(
    program_id: Seq<u8>,
    poll_id: u64,
    candidate_poll_id: u64,
    candidate_name: Seq<char>,
)
    requires
        poll_address(program_id, poll_id) is Some,
        poll_address(program_id, poll_id) == candidate_address(
            program_id,
            candidate_poll_id,
            candidate_name,
        ),
    ensures
        collide(
            program_id,
            derivation_seeds(poll_namespace(), poll_components(poll_id)),
            derivation_seeds(
                candidate_namespace(),
                candidate_components(candidate_poll_id, candidate_name),
            ),
        ),
{
    lemma_poll_candidate_material_distinct(poll_id, candidate_poll_id, candidate_name);
}

} // verus!
