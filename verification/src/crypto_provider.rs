//! Installation of rustls's cryptography provider.

use crate::transport::install_crypto_provider;
use vstd::prelude::*;

verus! {

/// Makes `ring` the provider of the process, unless it has one, so that TLS
/// does not have to guess between several. May be called before every use of
/// TLS: that another provider was first is no error.
pub fn ensure_installed() {
    install_crypto_provider();
}

} // verus!
