use vstd::prelude::*;
use crate::key::Key;
use vstd::string::StringSliceAdditionalSpecFns;
use anchor_lang::solana_program::pubkey::Pubkey;

verus! {

/// The longest seed that address derivation accepts.
pub const MAX_SEED_LEN: usize = 32;

/// The program-derived address and bump seed found for the seed list
/// `[first, second]` under the program `program`, if any.
pub uninterp spec fn program_address_of(first: Seq<u8>, second: Seq<u8>, program: Seq<u8>) -> Option<(Seq<u8>, u8)>;

/// Relies on `Pubkey::try_find_program_address`: the search is a function of
/// the seeds and the program id alone, and a seed over `MAX_SEED_LEN` bytes
/// makes it find nothing.
#[verifier::external_body]
fn find_program_address(first: &[u8], second: &Key, program: &Key) -> (r: Option<(Key, u8)>)
    ensures
        match r {
            Some((k, bump)) => program_address_of(first@, second@, program@) == Some((k@, bump)),
            None => program_address_of(first@, second@, program@) is None,
        },
        first@.len() > MAX_SEED_LEN ==> r is None,
{
    let seeds: [&[u8]; 2] = [first, &second.bytes];
    match Pubkey::try_find_program_address(&seeds, &Pubkey::new_from_array(program.bytes)) {
        Some((k, bump)) => Some((Key { bytes: k.to_bytes() }, bump)),
        None => None,
    }
}

/// The bytes of the tag that namespaces vault addresses: "wallet".
pub open spec fn wallet_tag() -> Seq<u8> {
    seq![119u8, 97u8, 108u8, 108u8, 101u8, 116u8]
}

pub open spec fn key_view(k: Option<Key>) -> Option<Seq<u8>> {
    match k {
        Some(k) => Some(k@),
        None => None,
    }
}

/// The address of the vault of `owner` under `program`.
pub open spec fn wallet_address_of(program: Seq<u8>, owner: Seq<u8>) -> Option<Seq<u8>> {
    match program_address_of(wallet_tag(), owner, program) {
        Some((a, _)) => Some(a),
        None => None,
    }
}

/// The address of the transfer record named `seed` of the vault at `vault`.
pub open spec fn transaction_address_of(program: Seq<u8>, vault: Seq<u8>, seed: Seq<u8>) -> Option<Seq<u8>> {
    match program_address_of(seed, vault, program) {
        Some((a, _)) => Some(a),
        None => None,
    }
}

/// Derives the vault address of `owner`.
pub fn wallet_address(program: &Key, owner: &Key) -> (r: Option<Key>)
    ensures
        key_view(r) == wallet_address_of(program@, owner@),
{
    let tag: Vec<u8> = vec![119u8, 97u8, 108u8, 108u8, 101u8, 116u8];
    assert(tag@ =~= wallet_tag());
    match find_program_address(tag.as_slice(), owner, program) {
        Some((k, _)) => Some(k),
        None => None,
    }
}

/// Derives the address of the transfer record named `seed` of the vault at `vault`.
pub fn transaction_address(program: &Key, vault: &Key, seed: &str) -> (r: Option<Key>)
    ensures
        key_view(r) == transaction_address_of(program@, vault@, seed.spec_bytes()),
        seed.spec_bytes().len() > MAX_SEED_LEN ==> r is None,
{
    match find_program_address(seed.as_bytes(), vault, program) {
        Some((k, _)) => Some(k),
        None => None,
    }
}

/// The bytes of this program's identity, JDiaQThJ6C1erE6Cm47A22TXzVo976Bi5ggo77M9S9kX
/// in base 58.
pub open spec fn program_id_bytes() -> Seq<u8> {
    seq![255u8, 216u8, 168u8, 83u8, 83u8, 223u8, 220u8, 203u8, 222u8, 53u8, 250u8, 160u8, 79u8, 218u8, 132u8, 209u8, 15u8, 42u8, 138u8, 127u8, 88u8, 151u8, 181u8, 136u8, 50u8, 220u8, 155u8, 116u8, 147u8, 163u8, 142u8, 100u8]
}

/// This program's identity, under which all its addresses are derived.
pub fn id() -> (r: Key)
    ensures
        r@ == program_id_bytes(),
{
    let r = Key { bytes: [255u8, 216u8, 168u8, 83u8, 83u8, 223u8, 220u8, 203u8, 222u8, 53u8, 250u8, 160u8, 79u8, 218u8, 132u8, 209u8, 15u8, 42u8, 138u8, 127u8, 88u8, 151u8, 181u8, 136u8, 50u8, 220u8, 155u8, 116u8, 147u8, 163u8, 142u8, 100u8] };
    assert(r@ =~= program_id_bytes());
    r
}

} // verus!
