//! The outside codecs that turn addresses into text and back, and what this library relies on
//! about them.
#![allow(deprecated)]

use sapling_crypto::PaymentAddress;
use vstd::prelude::*;
use zcash_client_backend::encoding::Bech32DecodeError;
use zcash_transparent::address::TransparentAddress;

verus! {

/// A Sapling payment address: opaque here, valid by construction.
#[verifier::external_type_specification]
#[verifier::external_body]
pub struct ExPaymentAddress(PaymentAddress);

/// A transparent address (public-key hash or script hash): opaque here.
#[verifier::external_type_specification]
#[verifier::external_body]
pub struct ExTransparentAddress(TransparentAddress);

/// The error of the Sapling address decoder.
#[verifier::external_type_specification]
#[verifier::external_body]
pub struct ExBech32DecodeError(Bech32DecodeError);

/// The error of the Base58Check decoder.
#[verifier::external_type_specification]
#[verifier::external_body]
pub struct ExBs58Error(bs58::decode::Error);

/// The shortest text that can hold a Sapling payment address: a one-character prefix, the
/// separator, 69 data characters for its 43 bytes and a six-character checksum.
pub const MIN_SAPLING_TEXT_LEN: usize = 76;

/// What the Sapling decoder reads from `s` under the human-readable prefix `hrp`.
pub uninterp spec fn sapling_decoding(hrp: Seq<char>, s: Seq<char>) -> Option<PaymentAddress>;

/// The Sapling address that `s` encodes under the human-readable prefix `hrp`, if any: never
/// one for text too short to hold 43 bytes.
pub open spec fn sapling_address_of(hrp: Seq<char>, s: Seq<char>) -> Option<PaymentAddress> {
    if s.len() < MIN_SAPLING_TEXT_LEN {
        None
    } else {
        sapling_decoding(hrp, s)
    }
}

/// The Bech32 text of the Sapling address `a` under the human-readable prefix `hrp`.
pub uninterp spec fn sapling_text_of(hrp: Seq<char>, a: PaymentAddress) -> Seq<char>;

/// What the transparent decoder reads from `s` under the two version prefixes.
pub uninterp spec fn transparent_decoding(
    pubkey_prefix: Seq<u8>,
    script_prefix: Seq<u8>,
    s: Seq<char>,
) -> Option<TransparentAddress>;

/// The transparent address that `s` encodes under the two version prefixes, if any: never one
/// for text that is empty or holds a character outside the Base58 alphabet.
pub open spec fn transparent_address_of(
    pubkey_prefix: Seq<u8>,
    script_prefix: Seq<u8>,
    s: Seq<char>,
) -> Option<TransparentAddress> {
    if is_base58_text(s) {
        transparent_decoding(pubkey_prefix, script_prefix, s)
    } else {
        None
    }
}

/// The Base58Check text of the transparent address `a` under the two version prefixes.
pub uninterp spec fn transparent_text_of(
    pubkey_prefix: Seq<u8>,
    script_prefix: Seq<u8>,
    a: TransparentAddress,
) -> Seq<char>;

/// A character that Bech32 accepts in a human-readable prefix: printable ASCII, no space.
pub open spec fn is_hrp_char(c: char) -> bool {
    '!' <= c && c <= '~'
}

/// A prefix that the Bech32 encoder takes without panicking.
pub open spec fn hrp_encodable(hrp: Seq<char>) -> bool {
    &&& hrp.len() <= 83
    &&& forall|i: int| 0 <= i < hrp.len() ==> is_hrp_char(#[trigger] hrp[i])
}

/// An encodable prefix that the decoder gives back as written: not empty, no upper case.
pub open spec fn hrp_canonical(hrp: Seq<char>) -> bool {
    &&& hrp_encodable(hrp)
    &&& hrp.len() >= 1
    &&& forall|i: int| 0 <= i < hrp.len() ==> !('A' <= #[trigger] hrp[i] && hrp[i] <= 'Z')
}

/// A character of the Bitcoin Base58 alphabet (digits and letters but `0`, `O`, `I`, `l`).
pub open spec fn is_base58_char(c: char) -> bool {
    ||| ('1' <= c && c <= '9')
    ||| ('A' <= c && c <= 'H')
    ||| ('J' <= c && c <= 'N')
    ||| ('P' <= c && c <= 'Z')
    ||| ('a' <= c && c <= 'k')
    ||| ('m' <= c && c <= 'z')
}

/// Text that the Base58 decoder can read at all: not empty, all of the alphabet.
pub open spec fn is_base58_text(s: Seq<char>) -> bool {
    &&& s.len() > 0
    &&& forall|i: int| 0 <= i < s.len() ==> is_base58_char(#[trigger] s[i])
}

/// Relies on `zcash_keys::encoding::decode_payment_address` (re-exported by
/// `zcash_client_backend::encoding`): the result depends on its arguments alone, and a success
/// needs a Bech32 string with a non-empty prefix, at least 69 data characters (43 bytes) and a
/// six-character checksum, so never comes from text shorter than `MIN_SAPLING_TEXT_LEN`.
#[verifier::external_body]
pub(crate) fn decode_sapling(hrp: &str, s: &str) -> (r: Result<PaymentAddress, Bech32DecodeError>)
    ensures
        s@.len() < MIN_SAPLING_TEXT_LEN ==> r is Err,
        s@.len() >= MIN_SAPLING_TEXT_LEN ==> sapling_decoding(hrp@, s@) == (match r {
            Ok(a) => Some(a),
            Err(_) => None,
        }),
{
    zcash_client_backend::encoding::decode_payment_address(hrp, s)
}

/// Relies on `zcash_keys::encoding::encode_payment_address`: it panics only on a prefix longer
/// than 83 bytes (`Hrp::parse_unchecked`); its output is the lower-cased prefix, `1`, the 43
/// bytes of `to_bytes` and a checksum. For a canonical prefix the decoder compares the prefix as
/// written, so it reads the text back to the same address under that prefix and under no other
/// (`from_bytes` accepts every `to_bytes` output, which keeps the address's invariants).
#[verifier::external_body]
pub(crate) fn encode_sapling(hrp: &str, a: &PaymentAddress) -> (r: String)
    requires
        hrp_encodable(hrp@),
    ensures
        r@ == sapling_text_of(hrp@, *a),
        hrp_canonical(hrp@) ==> sapling_address_of(hrp@, r@) == Some(*a),
        hrp_canonical(hrp@) ==> forall|h: Seq<char>|
            #[trigger] sapling_address_of(h, r@) is Some ==> h == hrp@,
{
    zcash_client_backend::encoding::encode_payment_address(hrp, a)
}

/// Relies on `zcash_keys::encoding::decode_transparent_address`: the result depends on its
/// arguments alone, and `bs58` fails on a character outside its alphabet and on text too short
/// to carry a four-byte checksum, the empty string among them.
#[verifier::external_body]
pub(crate) fn decode_transparent(
    pubkey_prefix: &[u8; 2],
    script_prefix: &[u8; 2],
    s: &str,
) -> (r: Result<Option<TransparentAddress>, bs58::decode::Error>)
    ensures
        !is_base58_text(s@) ==> r is Err,
        is_base58_text(s@) ==> transparent_decoding(pubkey_prefix@, script_prefix@, s@) == (
        match r {
            Ok(Some(a)) => Some(a),
            _ => None,
        }),
{
    zcash_client_backend::encoding::decode_transparent_address(pubkey_prefix, script_prefix, s)
}

/// Relies on `zcash_keys::encoding::encode_transparent_address`: Base58Check of the variant's
/// two-byte prefix and its 20-byte hash (26 bytes with the checksum, at most two characters
/// each). The decoder tests the pubkey prefix first, then the script prefix: it reads the text
/// back when the two differ, and finds neither among two-byte prefixes other than these.
#[verifier::external_body]
pub(crate) fn encode_transparent(
    pubkey_prefix: &[u8; 2],
    script_prefix: &[u8; 2],
    a: &TransparentAddress,
) -> (r: String)
    ensures
        r@ == transparent_text_of(pubkey_prefix@, script_prefix@, *a),
        r@.len() <= 52,
        pubkey_prefix@ != script_prefix@ ==> transparent_address_of(
            pubkey_prefix@,
            script_prefix@,
            r@,
        ) == Some(*a),
        forall|p: Seq<u8>, q: Seq<u8>|
            p.len() == 2 && q.len() == 2 && p != pubkey_prefix@ && p != script_prefix@ && q
                != pubkey_prefix@ && q != script_prefix@ ==> (#[trigger] transparent_address_of(
                p,
                q,
                r@,
            )) is None,
{
    zcash_client_backend::encoding::encode_transparent_address(pubkey_prefix, script_prefix, a)
}

} // verus!
