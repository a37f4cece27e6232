//! The addresses that funds can be sent to, read from text and written back.

use crate::codec::{
    decode_sapling, decode_transparent, encode_sapling, encode_transparent, is_base58_text,
    sapling_address_of, sapling_text_of, transparent_address_of, transparent_text_of,
    MIN_SAPLING_TEXT_LEN,
};
use crate::network::NetworkParams;
use sapling_crypto::PaymentAddress;
use vstd::prelude::*;
use zcash_transparent::address::TransparentAddress;

verus! {

/// An address that funds can be sent to.
#[derive(Clone, Copy, Debug, PartialEq, Eq)]
pub enum RecipientAddress {
    Shielded(PaymentAddress),
    Transparent(TransparentAddress),
}

/// What `text` reads as under `params`: a Sapling address if it decodes as one, else a
/// transparent address if it decodes as one, else nothing.
pub open spec fn parsed(params: NetworkParams, text: Seq<char>) -> Option<RecipientAddress> {
    match sapling_address_of(params.hrp_sapling_payment_address@, text) {
        Some(a) => Some(RecipientAddress::Shielded(a)),
        None => match transparent_address_of(
            params.b58_pubkey_address_prefix@,
            params.b58_script_address_prefix@,
            text,
        ) {
            Some(t) => Some(RecipientAddress::Transparent(t)),
            None => None,
        },
    }
}

/// The canonical text of `addr` under `params`.
pub open spec fn formatted(params: NetworkParams, addr: RecipientAddress) -> Seq<char> {
    match addr {
        RecipientAddress::Shielded(a) => sapling_text_of(params.hrp_sapling_payment_address@, a),
        RecipientAddress::Transparent(t) => transparent_text_of(
            params.b58_pubkey_address_prefix@,
            params.b58_script_address_prefix@,
            t,
        ),
    }
}

/// Reading and writing depend on nothing but their inputs: prefixes that read the same and
/// equal text give the same reading, and the same address is written the same way.
pub proof fn lemma_deterministic(
    p: NetworkParams,
    q: NetworkParams,
    s: Seq<char>,
    t: Seq<char>,
    addr: RecipientAddress,
)
    requires
        p.hrp_sapling_payment_address@ == q.hrp_sapling_payment_address@,
        p.b58_pubkey_address_prefix@ == q.b58_pubkey_address_prefix@,
        p.b58_script_address_prefix@ == q.b58_script_address_prefix@,
        s == t,
    ensures
        parsed(p, s) == parsed(q, t),
        formatted(p, addr) == formatted(q, addr),
{
}

impl From<PaymentAddress> for RecipientAddress {
    fn from(addr: PaymentAddress) -> (r: Self)
        ensures
            r == RecipientAddress::Shielded(addr),
    {
        RecipientAddress::Shielded(addr)
    }
}

impl vstd::std_specs::convert::FromSpecImpl<PaymentAddress> for RecipientAddress {
    open spec fn obeys_from_spec() -> bool {
        true
    }

    open spec fn from_spec(v: PaymentAddress) -> Self {
        RecipientAddress::Shielded(v)
    }
}

impl From<TransparentAddress> for RecipientAddress {
    fn from(addr: TransparentAddress) -> (r: Self)
        ensures
            r == RecipientAddress::Transparent(addr),
    {
        RecipientAddress::Transparent(addr)
    }
}

impl vstd::std_specs::convert::FromSpecImpl<TransparentAddress> for RecipientAddress {
    open spec fn obeys_from_spec() -> bool {
        true
    }

    open spec fn from_spec(v: TransparentAddress) -> Self {
        RecipientAddress::Transparent(v)
    }
}

impl RecipientAddress {
    /// Reads `s` as an address of the network `params`: as a Sapling address first, then as a
    /// transparent one; a string that is neither, for whatever reason, reads as nothing.
    pub fn from_str(params: &NetworkParams, s: &str) -> (r: Option<Self>)
        ensures
            r == parsed(*params, s@),
            sapling_address_of(params.hrp_sapling_payment_address@, s@) matches Some(a) ==> r
                == Some(RecipientAddress::Shielded(a)),
            s@.len() < MIN_SAPLING_TEXT_LEN && !is_base58_text(s@) ==> r is None,
    {
        match decode_sapling(params.hrp_sapling_payment_address.as_str(), s) {
            Ok(pa) => Some(RecipientAddress::from(pa)),
            Err(_) => match decode_transparent(
                &params.b58_pubkey_address_prefix,
                &params.b58_script_address_prefix,
                s,
            ) {
                Ok(Some(addr)) => Some(RecipientAddress::from(addr)),
                _ => None,
            },
        }
    }

    /// Writes this address as canonical text of the network `params`.
    ///
    /// Under prefixes that round-trip, the text reads back to this very address. Under the
    /// prefixes of a disjoint network, text of a transparent address reads as nothing, and text
    /// of a Sapling address never reads as a Sapling address.
    pub fn to_string(&self, params: &NetworkParams) -> (r: String)
        requires
            params.encodable(),
        ensures
            r@ == formatted(*params, *self),
            params.round_trips() ==> parsed(*params, r@) == Some(*self),
            forall|other: NetworkParams|
                params.disjoint_from(&other) && params.round_trips() ==> match (
                    #[trigger] parsed(other, r@),
                    *self,
                ) {
                    (Some(RecipientAddress::Shielded(_)), RecipientAddress::Shielded(_)) => false,
                    (Some(_), RecipientAddress::Transparent(_)) => false,
                    _ => true,
                },
    {
        match self {
            RecipientAddress::Shielded(pa) => {
                encode_sapling(params.hrp_sapling_payment_address.as_str(), pa)
            },
            RecipientAddress::Transparent(addr) => encode_transparent(
                &params.b58_pubkey_address_prefix,
                &params.b58_script_address_prefix,
                addr,
            ),
        }
    }
}

} // verus!
