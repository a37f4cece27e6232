//! The per-network prefixes that address text is read and written under.

use crate::codec::{hrp_canonical, hrp_encodable};
use vstd::prelude::*;
use vstd::string::StrSliceExecFns;

verus! {

/// The prefixes of one network: the human-readable part of Sapling addresses and the two
/// version prefixes of transparent pubkey-hash and script-hash addresses.
#[derive(Debug)]
pub struct NetworkParams {
    pub hrp_sapling_payment_address: String,
    pub b58_pubkey_address_prefix: [u8; 2],
    pub b58_script_address_prefix: [u8; 2],
}

impl NetworkParams {
    /// Addresses can be written under these prefixes.
    pub open spec fn encodable(&self) -> bool {
        hrp_encodable(self.hrp_sapling_payment_address@)
    }

    /// Every address written under these prefixes is read back to itself: the Sapling prefix
    /// reads back as written, and the two transparent prefixes can be told apart.
    pub open spec fn round_trips(&self) -> bool {
        &&& hrp_canonical(self.hrp_sapling_payment_address@)
        &&& self.b58_pubkey_address_prefix@ != self.b58_script_address_prefix@
    }

    /// `other` has another Sapling prefix, and neither of its transparent prefixes is one of these.
    pub open spec fn disjoint_from(&self, other: &NetworkParams) -> bool {
        let (p, q) = (self.b58_pubkey_address_prefix@, self.b58_script_address_prefix@);
        let (p2, q2) = (other.b58_pubkey_address_prefix@, other.b58_script_address_prefix@);
        &&& self.hrp_sapling_payment_address@ != other.hrp_sapling_payment_address@
        &&& p2 != p && p2 != q && q2 != p && q2 != q
    }

    /// Prefixes as given; nothing is checked here (see `is_encodable`).
    pub fn new(
        hrp_sapling_payment_address: String,
        b58_pubkey_address_prefix: [u8; 2],
        b58_script_address_prefix: [u8; 2],
    ) -> (r: Self)
        ensures
            r.hrp_sapling_payment_address@ == hrp_sapling_payment_address@,
            r.b58_pubkey_address_prefix@ == b58_pubkey_address_prefix@,
            r.b58_script_address_prefix@ == b58_script_address_prefix@,
    {
        NetworkParams { hrp_sapling_payment_address, b58_pubkey_address_prefix, b58_script_address_prefix }
    }

    /// Whether addresses can be written under these prefixes.
    pub fn is_encodable(&self) -> (r: bool)
        ensures
            r == self.encodable(),
    {
        let hrp = self.hrp_sapling_payment_address.as_str();
        let n = hrp.unicode_len();
        if n > 83 {
            return false;
        }
        let mut i: usize = 0;
        while i < n
            invariant
                n == hrp@.len(),
                hrp@ == self.hrp_sapling_payment_address@,
                0 <= i <= n,
                forall|j: int| 0 <= j < i ==> crate::codec::is_hrp_char(#[trigger] hrp@[j]),
            decreases n - i,
        {
            let c = hrp.get_char(i);
            if !('!' <= c && c <= '~') {
                return false;
            }
            i = i + 1;
        }
        true
    }
}

} // verus!
