//! The role registry: who administers, operates and arbitrates, where fees
//! are collected, and whether new commitments are paused.

use vstd::prelude::*;
use crate::errors::Error;
use crate::types::Address;

verus! {

/// The roles of one contract instance, the treasury and the pause flag.
///
/// A role that was never assigned is `None`; an operation that needs it
/// fails instead of falling back on another identity.
#[derive(Clone, Copy, Debug, PartialEq, Eq)]
pub struct RoleRegistry {
    pub admin: Option<Address>,
    pub operator: Option<Address>,
    pub arbitrator: Option<Address>,
    pub treasury: Option<Address>,
    pub paused: bool,
}

impl RoleRegistry {
    /// The registry before any initialization: no role, no treasury, not
    /// paused.
    pub open spec fn empty() -> RoleRegistry {
        RoleRegistry { admin: None, operator: None, arbitrator: None, treasury: None, paused: false }
    }

    /// Whether any of the three roles has been assigned.
    pub open spec fn populated(self) -> bool {
        self.admin is Some || self.operator is Some || self.arbitrator is Some
    }

    /// The registry once the three roles are assigned.
    pub open spec fn with_roles(
        self,
        admin: Address,
        operator: Address,
        arbitrator: Address,
    ) -> RoleRegistry {
        RoleRegistry {
            admin: Some(admin),
            operator: Some(operator),
            arbitrator: Some(arbitrator),
            ..self
        }
    }

    /// The registry before any initialization.
    pub fn new() -> (roles: RoleRegistry)
        ensures
            roles == RoleRegistry::empty(),
    {
        RoleRegistry { admin: None, operator: None, arbitrator: None, treasury: None, paused: false }
    }

    /// Whether any of the three roles has been assigned.
    pub fn is_populated(&self) -> (b: bool)
        ensures
            b == self.populated(),
    {
        self.admin.is_some() || self.operator.is_some() || self.arbitrator.is_some()
    }

    /// Assigns the three roles, once: on a registry that holds a role
    /// already the call fails with `AlreadyInitialized` and changes nothing.
    pub fn assign(&mut self, admin: Address, operator: Address, arbitrator: Address) -> (r: Result<
        (),
        Error,
    >)
        ensures
            match r {
                Ok(()) => !old(self).populated() && *final(self) == old(self).with_roles(
                    admin,
                    operator,
                    arbitrator,
                ),
                Err(e) => e == Error::AlreadyInitialized && old(self).populated() && *final(self)
                    == *old(self),
            },
    {
        if self.is_populated() {
            return Err(Error::AlreadyInitialized);
        }
        self.admin = Some(admin);
        self.operator = Some(operator);
        self.arbitrator = Some(arbitrator);
        Ok(())
    }
}

} // verus!
