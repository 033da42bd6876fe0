//! The passphrases that scope signatures to one network.
use vstd::prelude::*;

verus! {

/// Well-known network passphrases. Hashing a passphrase yields the
/// network id that every signing payload is bound to.
pub struct Networks;

impl Networks {
    /// The public network's passphrase.
    pub fn public() -> (r: &'static str)
        ensures
            r@ == "Public Global Stellar Network ; September 2015"@,
    {
        "Public Global Stellar Network ; September 2015"
    }

    /// The test network's passphrase.
    pub fn testnet() -> (r: &'static str)
        ensures
            r@ == "Test SDF Network ; September 2015"@,
    {
        "Test SDF Network ; September 2015"
    }
}

} // verus!
