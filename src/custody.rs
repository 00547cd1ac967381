use vstd::prelude::*;

use crate::pubkey::Pubkey;

verus! {

/// Transferability class of an asset.
#[derive(Clone, Copy, Debug, PartialEq, Eq, Structural)]
pub enum AssetStandard {
    NonFungible,
    Managed,
    /// Bound to its owner for good.
    Soulbound,
    Proxied,
}

/// Lock state of an asset.
#[derive(Clone, Copy, Debug, PartialEq, Eq, Structural)]
pub enum AssetState {
    Unlocked,
    Locked,
}

/// A capability a delegate may hold over an asset.
#[derive(Clone, Copy, Debug, PartialEq, Eq, Structural)]
pub enum DelegateRole {
    Transfer,
    Lock,
}

/// The capabilities granted to an asset's delegate.
#[derive(Clone, Copy, Debug, PartialEq, Eq, Structural)]
pub struct DelegateRoles {
    pub transfer: bool,
    pub lock: bool,
}

/// The party an asset's owner has granted capabilities to.
#[derive(Clone, Copy, Debug)]
pub struct AssetDelegate {
    pub address: Pubkey,
    pub roles: DelegateRoles,
}

/// The fields of an asset record that the settlement flows read and write.
/// The record itself belongs to the custody program; a fresh copy is read for
/// every settlement.
#[derive(Clone, Copy, Debug)]
pub struct AssetView {
    pub owner: Pubkey,
    /// The group the asset belongs to, if any.
    pub group: Option<Pubkey>,
    pub standard: AssetStandard,
    pub state: AssetState,
    pub delegate: Option<AssetDelegate>,
}

pub open spec fn role_granted(roles: DelegateRoles, role: DelegateRole) -> bool {
    match role {
        DelegateRole::Transfer => roles.transfer,
        DelegateRole::Lock => roles.lock,
    }
}

impl AssetView {
    /// `token` is the asset's delegate and holds `role`.
    pub open spec fn grants(&self, token: Pubkey, role: DelegateRole) -> bool {
        match self.delegate {
            Some(d) => d.address@ == token@ && role_granted(d.roles, role),
            None => false,
        }
    }

    /// Checks a presented capability token against the one the asset's
    /// delegation names.
    pub fn authorizes(&self, token: &Pubkey, role: DelegateRole) -> (r: bool)
        ensures
            r == self.grants(*token, role),
    {
        match &self.delegate {
            Some(d) => {
                let held = match role {
                    DelegateRole::Transfer => d.roles.transfer,
                    DelegateRole::Lock => d.roles.lock,
                };
                held && d.address.same_as(token)
            },
            None => false,
        }
    }

    pub fn is_soulbound(&self) -> (r: bool)
        ensures
            r == (self.standard == AssetStandard::Soulbound),
    {
        match self.standard {
            AssetStandard::Soulbound => true,
            _ => false,
        }
    }

    pub fn is_locked(&self) -> (r: bool)
        ensures
            r == (self.state == AssetState::Locked),
    {
        match self.state {
            AssetState::Locked => true,
            AssetState::Unlocked => false,
        }
    }
}

} // verus!
