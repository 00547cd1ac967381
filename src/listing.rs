use vstd::prelude::*;

use crate::pubkey::Pubkey;

verus! {

/// One escrow entry: an asset offered for sale by its seller.
#[derive(Clone, Copy, Debug)]
pub struct Listing {
    /// Owner of the asset at listing time.
    pub seller: Pubkey,
    /// The asset being sold.
    pub asset_id: Pubkey,
    /// Price in lamports.
    pub price: u64,
    /// Host time at creation.
    pub created_at: i64,
    /// Optional expiry; purchase is refused from this time on.
    pub expires_at: Option<i64>,
    /// Derivation index of the record's address.
    pub bump: u8,
}

/// Whether an optional expiry has been reached at time `now`.
pub open spec fn expired_at(expires_at: Option<i64>, now: i64) -> bool {
    match expires_at {
        Some(expiry) => now >= expiry,
        None => false,
    }
}

pub fn expiry_reached(expires_at: Option<i64>, now: i64) -> (r: bool)
    ensures
        r == expired_at(expires_at, now),
{
    match expires_at {
        Some(expiry) => now >= expiry,
        None => false,
    }
}

/// Stored size of a record: kind tag, two identities, price, creation time,
/// optional expiry (presence byte and value) and derivation index.
pub const LISTING_SIZE: usize = 8 + 32 + 32 + 8 + 8 + 9 + 1;

impl Listing {
    pub open spec fn active_at(&self, now: i64) -> bool {
        !expired_at(self.expires_at, now)
    }

    pub fn get_size() -> (r: usize)
        ensures
            r == 98,
    {
        LISTING_SIZE
    }

    /// Fills the record; `now` is the host time at creation.
    pub fn create(
        &mut self,
        seller: Pubkey,
        asset_id: Pubkey,
        price: u64,
        expires_at: Option<i64>,
        bump: u8,
        now: i64,
    )
        ensures
            *final(self) == (Listing { seller, asset_id, price, created_at: now, expires_at, bump }),
    {
        self.seller = seller;
        self.asset_id = asset_id;
        self.price = price;
        self.created_at = now;
        self.expires_at = expires_at;
        self.bump = bump;
    }

    /// Overwrites the price; no other field changes.
    pub fn update_price(&mut self, new_price: u64)
        ensures
            *final(self) == (Listing { price: new_price, ..*old(self) }),
    {
        self.price = new_price;
    }

    pub fn is_expired(&self, now: i64) -> (r: bool)
        ensures
            r == expired_at(self.expires_at, now),
    {
        expiry_reached(self.expires_at, now)
    }

    /// True iff no expiry is set or `now` is strictly before it.
    pub fn is_active(&self, now: i64) -> (r: bool)
        ensures
            r == self.active_at(now),
            r == (self.expires_at is None || now < self.expires_at->0),
    {
        !self.is_expired(now)
    }
}

} // verus!
