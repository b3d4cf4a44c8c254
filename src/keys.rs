//! Ledger keys: recipient addresses and sender key pairs in base58 text.

use std::str::FromStr;
use vstd::prelude::*;

verus! {

/// The 32 key bytes that a base58 address text stands for, if it is one.
pub uninterp spec fn pubkey_parse(s: Seq<char>) -> Option<Seq<u8>>;

/// The base58 text of 32 key bytes.
pub uninterp spec fn pubkey_display(b: Seq<u8>) -> Seq<char>;

/// The bytes that a base58 text stands for, if every character is in the alphabet.
pub uninterp spec fn base58_decoding(s: Seq<char>) -> Option<Seq<u8>>;

/// Whether bytes are a secret key followed by the public key derived from it.
pub uninterp spec fn keypair_bytes_valid(b: Seq<u8>) -> bool;

/// Relies on `FromStr` of solana-pubkey's `Pubkey`: base58 text of exactly
/// 32 bytes, refused outright above 44 bytes of text.
#[verifier::external_body]
fn parse_pubkey(s: &str) -> (r: Option<Vec<u8>>)
    ensures
        r is Some <==> pubkey_parse(s@) is Some,
        r is Some ==> r.unwrap()@ == pubkey_parse(s@).unwrap() && r.unwrap()@.len() == 32,
        s@.len() > 44 ==> r is None,
{
    match solana_sdk::pubkey::Pubkey::from_str(s) {
        Ok(key) => Some(key.to_bytes().to_vec()),
        Err(_) => None,
    }
}

/// Relies on `Display` of solana-pubkey's `Pubkey`: the base58 text of its bytes.
#[verifier::external_body]
fn pubkey_text(b: &Vec<u8>) -> (r: String)
    requires
        b@.len() == 32,
    ensures
        r@ == pubkey_display(b@),
{
    let bytes: [u8; 32] = b.as_slice().try_into().unwrap();
    solana_sdk::pubkey::Pubkey::new_from_array(bytes).to_string()
}

/// Relies on `bs58::decode(..).into_vec()`, as solana-sdk re-exports it: the
/// decoded bytes, or an error for a character outside the alphabet.
#[verifier::external_body]
fn decode_base58(s: &str) -> (r: Option<Vec<u8>>)
    ensures
        r is Some <==> base58_decoding(s@) is Some,
        r is Some ==> r.unwrap()@ == base58_decoding(s@).unwrap(),
{
    solana_sdk::bs58::decode(s).into_vec().ok()
}

/// Relies on `Keypair::try_from(&[u8])` of solana-keypair: it accepts exactly
/// 64 bytes, a secret key followed by the public key derived from it.
#[verifier::external_body]
fn keypair_accepts(b: &Vec<u8>) -> (r: bool)
    ensures
        r == keypair_bytes_valid(b@),
        r ==> b@.len() == 64,
{
    solana_sdk::signature::Keypair::try_from(b.as_slice()).is_ok()
}

/// The public key of a sender's base58 key pair text: the second half of its
/// 64 bytes, when the text decodes to a consistent key pair.
pub open spec fn sender_key(secret: Seq<char>) -> Option<Seq<u8>> {
    match base58_decoding(secret) {
        Some(b) => if keypair_bytes_valid(b) && b.len() == 64 {
            Some(b.subrange(32, 64))
        } else {
            None
        },
        None => None,
    }
}

/// Parses a recipient address; `None` when the text is no valid address.
pub fn parse_recipient(text: &str) -> (r: Option<Vec<u8>>)
    ensures
        r is Some <==> pubkey_parse(text@) is Some,
        r is Some ==> r.unwrap()@ == pubkey_parse(text@).unwrap() && r.unwrap()@.len() == 32,
{
    parse_pubkey(text)
}

/// The base58 address text of 32 key bytes.
pub fn address_text(key: &Vec<u8>) -> (r: String)
    requires
        key@.len() == 32,
    ensures
        r@ == pubkey_display(key@),
{
    pubkey_text(key)
}

/// The public key of a sender key pair given as base58 text.
pub fn sender_public_key(secret: &str) -> (r: Option<Vec<u8>>)
    ensures
        r is Some <==> sender_key(secret@) is Some,
        r is Some ==> r.unwrap()@ == sender_key(secret@).unwrap() && r.unwrap()@.len() == 32,
{
    let bytes = match decode_base58(secret) {
        Some(b) => b,
        None => return None,
    };
    if !keypair_accepts(&bytes) {
        return None;
    }
    let mut key: Vec<u8> = Vec::new();
    let mut i: usize = 32;
    while i < 64
        invariant
            32 <= i <= 64,
            bytes@.len() == 64,
            key@ == bytes@.subrange(32, i as int),
        decreases 64 - i,
    {
        key.push(bytes[i]);
        i = i + 1;
    }
    assert(key@ =~= bytes@.subrange(32, 64));
    Some(key)
}

} // verus!
