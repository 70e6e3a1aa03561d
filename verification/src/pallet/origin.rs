//! Who makes a call.

use vstd::prelude::*;

verus! {

/// The account that signs calls.
pub type AccountId = [u8; 32];

/// Where a call comes from.
#[derive(Clone, Copy, Debug)]
pub enum Origin {
    /// The runtime itself.
    Root,
    /// A call signed by an account.
    Signed(AccountId),
    /// Neither: a call that the block author put in.
    Unsigned,
}

/// Why a call was refused.
#[derive(Debug, PartialEq, Eq)]
pub enum DispatchError<E> {
    /// The origin of the call may not make it.
    BadOrigin,
    /// The module refused it.
    Module(E),
}

/// The account that signed a call; a call that none signed is refused.
pub fn ensure_signed<E>(origin: Origin) -> (r: Result<AccountId, DispatchError<E>>)
    ensures
        match origin {
            Origin::Signed(account) => r == Ok::<_, DispatchError<E>>(account),
            _ => r == Err::<AccountId, _>(DispatchError::<E>::BadOrigin),
        },
{
    match origin {
        Origin::Signed(account) => Ok(account),
        _ => Err(DispatchError::BadOrigin),
    }
}

} // verus!
