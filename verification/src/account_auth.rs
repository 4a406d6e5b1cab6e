//! The signatures an account accepts for authorization.
use vstd::prelude::*;

use crate::key_types::{EvmSignature, PasskeySignature, StellarSignature};
use crate::session::SessionAuthorization;

verus! {

/// An authorization signature: by an owner, or by a session delegate.
pub enum AccountAuth {
    Passkey(PasskeySignature),
    Stellar(StellarSignature),
    Evm(EvmSignature),
    Session(SessionAuthorization),
}

} // verus!
