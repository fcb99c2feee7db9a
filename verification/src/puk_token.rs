//! The key material of the identity provider, as it was fetched last.

use crate::cert::Certificate;
use vstd::prelude::*;

verus! {

/// The identity provider's signing certificate and the public keys that
/// go with it. A newer token replaces it as a whole.
#[derive(Debug)]
pub struct PukToken {
    /// The certificate of the identity provider, with its validity window.
    pub cert: Certificate,
    /// The DER encodings of the public keys.
    pub public_keys: Vec<Vec<u8>>,
}

} // verus!
