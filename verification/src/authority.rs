use vstd::prelude::*;
use vstd::string::StringSliceAdditionalSpecFns;
use crate::address::Address;

verus! {

/// The program-derived address and bump seed that belong to a list of seeds
/// under a program: an address for which no private key exists. `None` where
/// the seeds admit no such address.
pub uninterp spec fn program_address(seeds: Seq<Seq<u8>>, program_id: Seq<u8>) -> Option<(Seq<u8>, u8)>;

/// Calls `Pubkey::try_find_program_address` of solana-program, which hashes
/// the seeds, a bump seed and the program id, and looks for the highest bump
/// whose hash lies off the ed25519 curve. What it returns depends on the
/// seeds and the program id alone; it is named `program_address`.
#[verifier::external_body]
fn find_program_address(seeds: &Vec<Vec<u8>>, program_id: &[u8; 32]) -> (found: Option<([u8; 32], u8)>)
    ensures
        match found {
            Some((key, bump)) => program_address(seeds.deep_view(), program_id@) == Some((key@, bump)),
            None => program_address(seeds.deep_view(), program_id@).is_none(),
        },
{
    let parts: Vec<&[u8]> = seeds.iter().map(|seed| seed.as_slice()).collect();
    let program = anchor_lang::prelude::Pubkey::new_from_array(*program_id);
    anchor_lang::prelude::Pubkey::try_find_program_address(&parts, &program)
        .map(|(key, bump)| (key.to_bytes(), bump))
}

/// Whether `address` is the address derived from `seeds` under `program_id`.
pub open spec fn derives_to(seeds: Seq<Seq<u8>>, program_id: Address, address: Address) -> bool {
    match program_address(seeds, program_id.bytes@) {
        Some((key, _)) => key == address.bytes@,
        None => false,
    }
}

/// Whether `address` and `bump` are what `seeds` derive under `program_id`.
pub open spec fn derives(seeds: Seq<Seq<u8>>, program_id: Address, address: Address, bump: u8) -> bool {
    program_address(seeds, program_id.bytes@) == Some((address.bytes@, bump))
}

/// The bump seed that `seeds` derive under `program_id`, where they derive
/// an address at all.
pub open spec fn derived_bump(seeds: Seq<Seq<u8>>, program_id: Address) -> u8 {
    program_address(seeds, program_id.bytes@).unwrap().1
}

/// The namespace tag of card records: the bytes of "card".
pub open spec fn card_tag() -> Seq<u8> {
    seq![99u8, 97u8, 114u8, 100u8]
}

/// The namespace tag of escrow accounts: the bytes of "escrow".
pub open spec fn escrow_tag() -> Seq<u8> {
    seq![101u8, 115u8, 99u8, 114u8, 111u8, 119u8]
}

/// The namespace tag of the registry: the bytes of "bridge_state".
pub open spec fn registry_tag() -> Seq<u8> {
    seq![98u8, 114u8, 105u8, 100u8, 103u8, 101u8, 95u8, 115u8, 116u8, 97u8, 116u8, 101u8]
}

/// The seeds of a card record: the tag, the owner and the card id's bytes.
pub open spec fn card_seeds(owner: Address, card_id: Seq<char>) -> Seq<Seq<u8>> {
    seq![card_tag(), owner.bytes@, vstd::utf8::encode_utf8(card_id)]
}

/// The seeds of a card's escrow account: the tag and the card's address.
pub open spec fn escrow_seeds(card_key: Address) -> Seq<Seq<u8>> {
    seq![escrow_tag(), card_key.bytes@]
}

/// The seeds of the registry: the tag alone.
pub open spec fn registry_seeds() -> Seq<Seq<u8>> {
    seq![registry_tag()]
}

/// The seeds that sign for a card: its record's seeds, then its bump seed.
pub open spec fn signer_seeds(owner: Address, card_id: Seq<char>, bump: u8) -> Seq<Seq<u8>> {
    card_seeds(owner, card_id).push(seq![bump])
}

proof fn lemma_deep_view(seeds: Vec<Vec<u8>>)
    ensures
        seeds.deep_view().len() == seeds@.len(),
        forall|i: int| 0 <= i < seeds@.len() ==> #[trigger] seeds.deep_view()[i] == seeds@[i]@,
{
    assert forall|i: int| 0 <= i < seeds@.len() implies #[trigger] seeds.deep_view()[i] == seeds@[i]@ by {
        assert(seeds@[i].deep_view() =~= seeds@[i]@);
    }
}

fn card_tag_bytes() -> (tag: Vec<u8>)
    ensures
        tag@ == card_tag(),
{
    let tag: Vec<u8> = vec![99u8, 97u8, 114u8, 100u8];
    assert(tag@ =~= card_tag());
    tag
}

fn escrow_tag_bytes() -> (tag: Vec<u8>)
    ensures
        tag@ == escrow_tag(),
{
    let tag: Vec<u8> = vec![101u8, 115u8, 99u8, 114u8, 111u8, 119u8];
    assert(tag@ =~= escrow_tag());
    tag
}

fn registry_tag_bytes() -> (tag: Vec<u8>)
    ensures
        tag@ == registry_tag(),
{
    let tag: Vec<u8> = vec![98u8, 114u8, 105u8, 100u8, 103u8, 101u8, 95u8, 115u8, 116u8, 97u8, 116u8, 101u8];
    assert(tag@ =~= registry_tag());
    tag
}

fn text_bytes(text: &str) -> (bytes: Vec<u8>)
    ensures
        bytes@ == text.spec_bytes(),
{
    let source = text.as_bytes();
    let mut bytes: Vec<u8> = Vec::new();
    let mut i: usize = 0;
    while i < source.len()
        invariant
            i <= source@.len(),
            bytes@.len() == i,
            forall|j: int| 0 <= j < i ==> bytes@[j] == source@[j],
        decreases source@.len() - i,
    {
        bytes.push(source[i]);
        i += 1;
    }
    assert(bytes@ =~= source@);
    bytes
}

/// Builds the seeds of the card record of `owner` named `card_id`.
pub fn card_seed_list(owner: &Address, card_id: &str) -> (seeds: Vec<Vec<u8>>)
    ensures
        seeds.deep_view() == card_seeds(*owner, card_id@),
{
    let mut seeds: Vec<Vec<u8>> = Vec::new();
    seeds.push(card_tag_bytes());
    seeds.push(owner.to_vec());
    seeds.push(text_bytes(card_id));
    proof {
        lemma_deep_view(seeds);
        assert(seeds.deep_view() =~= card_seeds(*owner, card_id@));
    }
    seeds
}

/// Builds the seeds of the escrow account of the card at `card_key`.
pub fn escrow_seed_list(card_key: &Address) -> (seeds: Vec<Vec<u8>>)
    ensures
        seeds.deep_view() == escrow_seeds(*card_key),
{
    let mut seeds: Vec<Vec<u8>> = Vec::new();
    seeds.push(escrow_tag_bytes());
    seeds.push(card_key.to_vec());
    proof {
        lemma_deep_view(seeds);
        assert(seeds.deep_view() =~= escrow_seeds(*card_key));
    }
    seeds
}

/// Builds the seeds of the registry.
pub fn registry_seed_list() -> (seeds: Vec<Vec<u8>>)
    ensures
        seeds.deep_view() == registry_seeds(),
{
    let mut seeds: Vec<Vec<u8>> = Vec::new();
    seeds.push(registry_tag_bytes());
    proof {
        lemma_deep_view(seeds);
        assert(seeds.deep_view() =~= registry_seeds());
    }
    seeds
}

/// Builds the seeds that sign for the card of `owner` named `card_id` whose
/// bump seed is `bump`.
pub fn signer_seed_list(owner: &Address, card_id: &str, bump: u8) -> (seeds: Vec<Vec<u8>>)
    ensures
        seeds.deep_view() == signer_seeds(*owner, card_id@, bump),
{
    let mut seeds: Vec<Vec<u8>> = Vec::new();
    seeds.push(card_tag_bytes());
    seeds.push(owner.to_vec());
    seeds.push(text_bytes(card_id));
    let last: Vec<u8> = vec![bump];
    assert(last@ =~= seq![bump]);
    seeds.push(last);
    proof {
        lemma_deep_view(seeds);
        assert(seeds.deep_view() =~= signer_seeds(*owner, card_id@, bump));
    }
    seeds
}

/// Derives the address and bump seed of `seeds` under `program_id`.
pub fn derive_address(seeds: &Vec<Vec<u8>>, program_id: &Address) -> (found: Option<(Address, u8)>)
    ensures
        match found {
            Some((address, bump)) => derives(seeds.deep_view(), *program_id, address, bump),
            None => program_address(seeds.deep_view(), program_id.bytes@).is_none(),
        },
{
    match find_program_address(seeds, &program_id.bytes) {
        Some((key, bump)) => Some((Address::new(key), bump)),
        None => None,
    }
}

/// The bump seed under which `seeds` derive `address` under `program_id`,
/// or `None` where they derive another address or none.
pub fn bump_of_address(seeds: &Vec<Vec<u8>>, program_id: &Address, address: &Address) -> (found: Option<u8>)
    ensures
        match found {
            Some(bump) => derives(seeds.deep_view(), *program_id, *address, bump),
            None => !derives_to(seeds.deep_view(), *program_id, *address),
        },
{
    match derive_address(seeds, program_id) {
        Some((derived, bump)) => {
            proof {
                if derived.bytes@ == address.bytes@ {
                    assert(derived.bytes =~= address.bytes);
                }
            }
            if derived.same(address) {
                Some(bump)
            } else {
                None
            }
        },
        None => None,
    }
}

/// Whether `address` is the address that `seeds` derive under `program_id`.
pub fn is_derived_address(seeds: &Vec<Vec<u8>>, program_id: &Address, address: &Address) -> (derived: bool)
    ensures
        derived == derives_to(seeds.deep_view(), *program_id, *address),
{
    bump_of_address(seeds, program_id, address).is_some()
}

} // verus!
