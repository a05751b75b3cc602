//! Single-administrator access control.

use crate::address::Address;
use crate::error::Error;
use vstd::prelude::*;

verus! {

/// Why an ownership check or change was refused.
#[derive(Clone, Copy, Debug, PartialEq, Eq, Structural)]
pub enum OwnableError {
    /// The caller is not the administrator.
    UnauthorizedAccount { account: Address },
    /// The proposed administrator is the null identity.
    InvalidOwner { owner: Address },
}

/// The contract-level error that an ownership error becomes.
pub open spec fn error_of(e: OwnableError) -> Error {
    match e {
        OwnableError::UnauthorizedAccount { account } => Error::UnauthorizedAccount { account },
        OwnableError::InvalidOwner { owner } => Error::InvalidOwner { owner },
    }
}

impl From<OwnableError> for Error {
    fn from(value: OwnableError) -> (r: Error)
        ensures
            r == error_of(value),
    {
        match value {
            OwnableError::UnauthorizedAccount { account } => Error::UnauthorizedAccount { account },
            OwnableError::InvalidOwner { owner } => Error::InvalidOwner { owner },
        }
    }
}

impl vstd::std_specs::convert::FromSpecImpl<OwnableError> for Error {
    open spec fn obeys_from_spec() -> bool {
        true
    }

    open spec fn from_spec(v: OwnableError) -> Error {
        error_of(v)
    }
}

/// The administrator of the contract; the null identity means there is none.
#[derive(Clone, Copy, Debug, PartialEq, Eq, Structural)]
pub struct Ownable {
    pub owner: Address,
}

impl Ownable {
    /// `caller` may perform privileged operations: there is an administrator and it is `caller`.
    pub open spec fn is_owner(self, caller: Address) -> bool {
        !self.owner.is_null_spec() && caller == self.owner
    }

    /// An administrator slot that nobody holds yet.
    pub fn vacant() -> (r: Ownable)
        ensures
            r.owner.is_null_spec(),
    {
        Ownable { owner: Address::null() }
    }

    /// Installs the first administrator, which must not be the null identity.
    pub fn constructor(&mut self, initial_owner: Address) -> (r: Result<(), OwnableError>)
        ensures
            initial_owner.is_null_spec() ==> r == Err::<(), OwnableError>(
                OwnableError::InvalidOwner { owner: Address::spec_null() },
            ) && *final(self) == *old(self),
            !initial_owner.is_null_spec() ==> r is Ok && final(self).owner == initial_owner,
    {
        if initial_owner.is_null() {
            return Err(OwnableError::InvalidOwner { owner: Address::null() });
        }
        self.owner = initial_owner;
        Ok(())
    }

    pub fn owner(&self) -> (r: Address)
        ensures
            r == self.owner,
    {
        self.owner
    }

    /// Fails unless `caller` is the administrator.
    pub fn only_owner(&self, caller: Address) -> (r: Result<(), OwnableError>)
        ensures
            self.is_owner(caller) ==> r is Ok,
            !self.is_owner(caller) ==> r == Err::<(), OwnableError>(
                OwnableError::UnauthorizedAccount { account: caller },
            ),
    {
        if self.owner.is_null() || caller != self.owner {
            return Err(OwnableError::UnauthorizedAccount { account: caller });
        }
        Ok(())
    }

    /// Hands the administrator role from `caller` to `new_owner`.
    pub fn transfer_ownership(&mut self, caller: Address, new_owner: Address) -> (r: Result<
        (),
        OwnableError,
    >)
        ensures
            !old(self).is_owner(caller) ==> r == Err::<(), OwnableError>(
                OwnableError::UnauthorizedAccount { account: caller },
            ),
            old(self).is_owner(caller) && new_owner.is_null_spec() ==> r == Err::<
                (),
                OwnableError,
            >(OwnableError::InvalidOwner { owner: Address::spec_null() }),
            r is Err ==> *final(self) == *old(self),
            old(self).is_owner(caller) && !new_owner.is_null_spec() ==> r is Ok
                && final(self).owner == new_owner,
    {
        self.only_owner(caller)?;
        if new_owner.is_null() {
            return Err(OwnableError::InvalidOwner { owner: Address::null() });
        }
        self.owner = new_owner;
        Ok(())
    }

    /// Leaves the contract without an administrator, for good.
    pub fn renounce_ownership(&mut self, caller: Address) -> (r: Result<(), OwnableError>)
        ensures
            !old(self).is_owner(caller) ==> r == Err::<(), OwnableError>(
                OwnableError::UnauthorizedAccount { account: caller },
            ) && *final(self) == *old(self),
            old(self).is_owner(caller) ==> r is Ok && final(self).owner.is_null_spec(),
    {
        self.only_owner(caller)?;
        self.owner = Address::null();
        Ok(())
    }
}

} // verus!
