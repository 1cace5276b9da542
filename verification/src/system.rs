//! What the host hands to every dispatchable call: who is calling.

use vstd::prelude::*;

verus! {

/// Reference to an account. Calls compare accounts for equality and use
/// them as storage keys; nothing else is read from them.
pub type AccountId = u64;

/// Height of the block in which a call runs, as the host counts it.
pub type BlockNumber = u64;

/// Where a call comes from.
#[derive(Clone, Copy, Debug, PartialEq, Eq)]
pub enum Origin {
    /// The system itself ordered the call.
    Root,
    /// An account signed the call.
    Signed(AccountId),
    /// Nobody signed the call.
    Unsigned,
    /// Nobody signed the call; the runtime authorised it.
    Authorized,
}

/// The origin of a call is not the one the call asks for.
#[derive(Clone, Copy, Debug, PartialEq, Eq)]
pub struct BadOrigin;

impl Origin {
    /// The account that signed, if one did.
    pub open spec fn signer(self) -> Option<AccountId> {
        match self {
            Origin::Signed(who) => Some(who),
            _ => None,
        }
    }
}

/// Returns the account that signed `origin`, and `BadOrigin` for every
/// origin that no account signed.
pub fn ensure_signed(origin: Origin) -> (r: Result<AccountId, BadOrigin>)
    ensures
        r == (match origin.signer() {
            Some(who) => Ok::<AccountId, BadOrigin>(who),
            None => Err::<AccountId, BadOrigin>(BadOrigin),
        }),
{
    match origin {
        Origin::Signed(who) => Ok(who),
        _ => Err(BadOrigin),
    }
}

} // verus!
