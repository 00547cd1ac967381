use vstd::prelude::*;

use crate::error::ServiceOfferingError;
use crate::listing::{expired_at, expiry_reached};
use crate::pubkey::Pubkey;

verus! {

/// Kind of service sold by an offering.
#[derive(Clone, Copy, Debug, PartialEq, Eq, Structural)]
pub enum ServiceType {
    OneTime,
}

impl Default for ServiceType {
    fn default() -> (r: ServiceType)
        ensures
            r == ServiceType::OneTime,
    {
        ServiceType::OneTime
    }
}

/// A repeatable, quantity-limited sale definition with its sale counter.
#[derive(Clone, Copy, Debug)]
pub struct ServiceOffering {
    /// The vendor that is paid for each sale.
    pub vendor: Pubkey,
    /// The group asset under which sold units are minted.
    pub asset_id: Pubkey,
    pub service_type: ServiceType,
    /// Number of units sold so far.
    pub num_sold: u64,
    /// Maximum number of units; 0 means unlimited.
    pub max_quantity: u64,
    /// Vendor-controlled switch.
    pub active: bool,
    /// Price of one unit in lamports.
    pub sol_price: u64,
    /// Host time at creation.
    pub created_at: i64,
    /// Optional expiry; purchase is refused from this time on.
    pub expires_at: Option<i64>,
    /// Whether minted units may change owner.
    pub is_transferrable: bool,
    /// Derivation index of the record's address.
    pub bump: u8,
}

/// Stored size of a record: kind tag, two identities, service kind, counter,
/// maximum, active flag, price, creation time, optional expiry, derivation
/// index and transferability flag.
pub const SERVICE_OFFERING_SIZE: usize = 8 + 32 + 32 + 2 + 8 + 8 + 1 + 8 + 8 + 9 + 1 + 1;

/// Availability for purchase is exactly: switched on, not expired, and not
/// sold out (a nonzero maximum reached). It holds of every record, so of the
/// record left by each operation that changes it; the operations below carry
/// what they change.
pub proof fn lemma_active_iff_on_unexpired_not_sold_out(o: ServiceOffering, now: i64)
    ensures
        o.active_at(now) <==> (o.active && !expired_at(o.expires_at, now) && !(o.max_quantity > 0
            && o.num_sold >= o.max_quantity)),
{
}

impl ServiceOffering {
    pub open spec fn expired_at(&self, now: i64) -> bool {
        expired_at(self.expires_at, now)
    }

    pub open spec fn sold_out(&self) -> bool {
        self.max_quantity > 0 && self.num_sold >= self.max_quantity
    }

    /// Available for purchase at time `now`.
    pub open spec fn active_at(&self, now: i64) -> bool {
        self.active && !self.expired_at(now) && !self.sold_out()
    }

    /// The counter never passes a nonzero maximum.
    pub open spec fn wf(&self) -> bool {
        self.max_quantity > 0 ==> self.num_sold <= self.max_quantity
    }

    pub fn get_size() -> (r: usize)
        ensures
            r == 118,
    {
        SERVICE_OFFERING_SIZE
    }

    /// Fills the record: nothing sold, switched on, one-time service;
    /// `now` is the host time at creation.
    pub fn create(
        &mut self,
        vendor: Pubkey,
        asset_id: Pubkey,
        max_quantity: u64,
        sol_price: u64,
        expires_at: Option<i64>,
        is_transferrable: bool,
        bump: u8,
        now: i64,
    )
        ensures
            *final(self) == (ServiceOffering {
                vendor,
                asset_id,
                service_type: ServiceType::OneTime,
                num_sold: 0,
                max_quantity,
                active: true,
                sol_price,
                created_at: now,
                expires_at,
                is_transferrable,
                bump,
            }),
            final(self).wf(),
            forall|t: i64| #[trigger] final(self).active_at(t) == !expired_at(expires_at, t),
    {
        self.vendor = vendor;
        self.asset_id = asset_id;
        self.service_type = ServiceType::default();
        self.num_sold = 0;
        self.active = true;
        self.sol_price = sol_price;
        self.max_quantity = max_quantity;
        self.created_at = now;
        self.expires_at = expires_at;
        self.is_transferrable = is_transferrable;
        self.bump = bump;
    }

    pub fn deactivate(&mut self)
        ensures
            *final(self) == (ServiceOffering { active: false, ..*old(self) }),
            forall|now: i64| !final(self).active_at(now),
    {
        self.active = false;
    }

    pub fn activate(&mut self)
        ensures
            *final(self) == (ServiceOffering { active: true, ..*old(self) }),
            forall|now: i64| #[trigger] final(self).active_at(now) == (!final(self).expired_at(now) && !final(self).sold_out()),
    {
        self.active = true;
    }

    pub fn update_sol_price(&mut self, new_price: u64)
        ensures
            *final(self) == (ServiceOffering { sol_price: new_price, ..*old(self) }),
            forall|now: i64| #[trigger] final(self).active_at(now) == old(self).active_at(now),
    {
        self.sol_price = new_price;
    }

    /// Overwrites the maximum; 0 makes the offering unlimited.
    pub fn update_max_quantity(&mut self, new_quantity: u64)
        ensures
            *final(self) == (ServiceOffering { max_quantity: new_quantity, ..*old(self) }),
            final(self).wf() == (new_quantity == 0 || old(self).num_sold <= new_quantity),
    {
        self.max_quantity = new_quantity;
    }

    pub fn is_expired(&self, now: i64) -> (r: bool)
        ensures
            r == self.expired_at(now),
    {
        expiry_reached(self.expires_at, now)
    }

    pub fn is_sold_out(&self) -> (r: bool)
        ensures
            r == self.sold_out(),
    {
        self.max_quantity > 0 && self.num_sold >= self.max_quantity
    }

    /// Switched on, not expired and not sold out at time `now`.
    pub fn is_active(&self, now: i64) -> (r: bool)
        ensures
            r == self.active_at(now),
            r == (self.active && !self.expired_at(now) && !(self.max_quantity > 0
                && self.num_sold >= self.max_quantity)),
    {
        self.active && !self.is_expired(now) && !self.is_sold_out()
    }

    /// Records one sale at time `now`.
    pub fn increment_sold(&mut self, now: i64) -> (r: Result<(), ServiceOfferingError>)
        ensures
            r is Ok <==> old(self).active_at(now) && old(self).num_sold < u64::MAX,
            r == Err::<(), _>(ServiceOfferingError::ServiceNotActive) <==> (!old(self).active
                || old(self).expired_at(now)),
            r == Err::<(), _>(ServiceOfferingError::SoldOut) <==> (old(self).active
                && !old(self).expired_at(now) && old(self).sold_out()),
            r == Err::<(), _>(ServiceOfferingError::ArithmeticOverflow) <==> (old(self).active_at(now)
                && old(self).num_sold == u64::MAX),
            r is Ok ==> *final(self) == (ServiceOffering {
                num_sold: (old(self).num_sold + 1) as u64,
                ..*old(self)
            }),
            r is Err ==> *final(self) == *old(self),
            old(self).wf() ==> final(self).wf(),
    {
        if !self.active || self.is_expired(now) {
            return Err(ServiceOfferingError::ServiceNotActive);
        }
        if self.is_sold_out() {
            return Err(ServiceOfferingError::SoldOut);
        }
        if self.num_sold == u64::MAX {
            return Err(ServiceOfferingError::ArithmeticOverflow);
        }
        self.num_sold = self.num_sold + 1;
        Ok(())
    }
}

} // verus!
