use vstd::prelude::*;

use crate::custody::{AssetDelegate, AssetStandard, AssetState, AssetView, DelegateRole, DelegateRoles};
use crate::error::{ListingError, ServiceOfferingError};
use crate::listing::Listing;
use crate::service_offering::ServiceOffering;
use crate::pubkey::{is_some_key, matches_key, Pubkey};

verus! {

/// A native-currency account taking part in a settlement.
#[derive(Clone, Copy, Debug)]
pub struct Wallet {
    pub key: Pubkey,
    pub lamports: u64,
}

/// Everything one listing escrow touches: the asset as the custody program
/// holds it, the address of the listing record (the capability token the
/// asset is delegated to), the record itself while it exists, and the storage
/// deposit the record holds.
#[derive(Clone, Copy, Debug)]
pub struct Escrow {
    pub asset_id: Pubkey,
    pub asset: AssetView,
    pub listing_key: Pubkey,
    /// `None` before listing and after a completed sale.
    pub listing: Option<Listing>,
    pub deposit: u64,
}

impl Escrow {
    /// No deposit is held without a record.
    pub open spec fn wf(&self) -> bool {
        self.listing is None ==> self.deposit == 0
    }
}

/// The first listing precondition that `asset` fails for `seller`, if any.
pub open spec fn listing_refusal(asset: AssetView, seller: Pubkey) -> Option<ListingError> {
    if asset.standard == AssetStandard::Soulbound {
        Some(ListingError::AssetIsSoulbound)
    } else if asset.state == AssetState::Locked {
        Some(ListingError::AssetIsLocked)
    } else if asset.owner@ != seller@ {
        Some(ListingError::NotAssetOwner)
    } else {
        None
    }
}

/// Opens a listing of the escrow's asset at `price`, as one unit: the seller
/// pays the record's `deposit`, the asset is delegated to the record with the
/// transfer and lock roles and locked by it, and the record is filled.
/// On any failure nothing changes.
pub fn list_asset(
    escrow: &mut Escrow,
    seller: &mut Wallet,
    price: u64,
    expires_at: Option<i64>,
    bump: u8,
    deposit: u64,
    now: i64,
) -> (r: Result<(), ListingError>)
    ensures
        ({
            let e = *old(escrow);
            let refusal = listing_refusal(e.asset, old(seller).key);
            &&& refusal is Some ==> r == Err::<(), _>(refusal->0)
            &&& refusal is None && e.listing is Some ==> r == Err::<(), _>(
                ListingError::ListingExists,
            )
            &&& refusal is None && e.listing is None && old(seller).lamports < deposit ==> r
                == Err::<(), _>(ListingError::InsufficientFunds)
            &&& r is Ok <==> (refusal is None && e.listing is None && old(seller).lamports
                >= deposit)
        }),
        old(escrow).asset.standard == AssetStandard::Soulbound ==> r == Err::<(), _>(
            ListingError::AssetIsSoulbound,
        ),
        r is Err ==> *final(escrow) == *old(escrow) && *final(seller) == *old(seller),
        old(escrow).wf() ==> final(escrow).wf(),
        r is Ok ==> {
            let e = *old(escrow);
            &&& final(seller).key == old(seller).key
            &&& final(seller).lamports == old(seller).lamports - deposit
            &&& final(escrow).asset_id == e.asset_id
            &&& final(escrow).listing_key == e.listing_key
            &&& final(escrow).deposit == deposit
            &&& final(escrow).asset.owner == e.asset.owner
            &&& final(escrow).asset.group == e.asset.group
            &&& final(escrow).asset.standard == e.asset.standard
            &&& final(escrow).asset.state == AssetState::Locked
            &&& final(escrow).asset.grants(e.listing_key, DelegateRole::Transfer)
            &&& final(escrow).asset.grants(e.listing_key, DelegateRole::Lock)
            &&& final(escrow).listing == Some(
                Listing {
                    seller: old(seller).key,
                    asset_id: e.asset_id,
                    price,
                    created_at: now,
                    expires_at,
                    bump,
                },
            )
        },
{
    if escrow.asset.is_soulbound() {
        return Err(ListingError::AssetIsSoulbound);
    }
    if escrow.asset.is_locked() {
        return Err(ListingError::AssetIsLocked);
    }
    if !escrow.asset.owner.same_as(&seller.key) {
        return Err(ListingError::NotAssetOwner);
    }
    if escrow.listing.is_some() {
        return Err(ListingError::ListingExists);
    }
    if seller.lamports < deposit {
        return Err(ListingError::InsufficientFunds);
    }
    // Stage every write, then commit them together.
    let mut staged = *escrow;
    staged.deposit = deposit;
    staged.asset.delegate = Some(
        AssetDelegate { address: staged.listing_key, roles: DelegateRoles { transfer: true, lock: true } },
    );
    if !staged.asset.authorizes(&staged.listing_key, DelegateRole::Lock) {
        return Err(ListingError::Unauthorized);
    }
    staged.asset.state = AssetState::Locked;
    staged.listing = Some(
        Listing {
            seller: seller.key,
            asset_id: staged.asset_id,
            price,
            created_at: now,
            expires_at,
            bump,
        },
    );
    seller.lamports = seller.lamports - deposit;
    *escrow = staged;
    Ok(())
}

/// The first failure of a purchase of the escrow's listing, in the order the
/// unit meets them, if any.
pub open spec fn purchase_refusal(
    e: Escrow,
    seller: Wallet,
    buyer: Wallet,
    group: Pubkey,
    now: i64,
) -> Option<ListingError> {
    match e.listing {
        None => Some(ListingError::ListingClosed),
        Some(l) => if l.seller@ != seller.key@ {
            Some(ListingError::Unauthorized)
        } else if !l.active_at(now) {
            Some(ListingError::ListingNotActive)
        } else if !is_some_key(e.asset.group, group) {
            Some(ListingError::InvalidGroup)
        } else if buyer.lamports < l.price {
            Some(ListingError::InsufficientFunds)
        } else if seller.lamports + l.price + e.deposit > u64::MAX {
            Some(ListingError::ArithmeticOverflow)
        } else if !e.asset.grants(e.listing_key, DelegateRole::Lock) || !e.asset.grants(
            e.listing_key,
            DelegateRole::Transfer,
        ) {
            Some(ListingError::Unauthorized)
        } else {
            None
        },
    }
}

/// Buys the listed asset at time `now`, as one unit: the buyer pays the price
/// to the seller, the listing record unlocks the asset and transfers it to the
/// buyer inside `group`, and the record is closed with its deposit refunded to
/// the seller. On any failure nothing changes and the record stays open.
pub fn buy_listing(
    escrow: &mut Escrow,
    seller: &mut Wallet,
    buyer: &mut Wallet,
    group: Pubkey,
    now: i64,
) -> (r: Result<(), ListingError>)
    ensures
        ({
            let refusal = purchase_refusal(*old(escrow), *old(seller), *old(buyer), group, now);
            &&& refusal is Some ==> r == Err::<(), _>(refusal->0)
            &&& refusal is None ==> r is Ok
        }),
        old(escrow).listing is Some && !old(escrow).listing->0.active_at(now) && old(
            escrow,
        ).listing->0.seller@ == old(seller).key@ ==> r == Err::<(), _>(
            ListingError::ListingNotActive,
        ),
        r is Err ==> *final(escrow) == *old(escrow) && *final(seller) == *old(seller)
            && *final(buyer) == *old(buyer),
        old(escrow).wf() ==> final(escrow).wf(),
        r is Ok ==> {
            let e = *old(escrow);
            let price = e.listing->0.price;
            &&& final(buyer).key == old(buyer).key
            &&& final(buyer).lamports == old(buyer).lamports - price
            &&& final(seller).key == old(seller).key
            &&& final(seller).lamports == old(seller).lamports + price + e.deposit
            &&& final(escrow).asset.owner == old(buyer).key
            &&& final(escrow).asset.state == AssetState::Unlocked
            &&& final(escrow).asset.delegate is None
            &&& final(escrow).asset.group == e.asset.group
            &&& final(escrow).asset.standard == e.asset.standard
            &&& final(escrow).asset_id == e.asset_id
            &&& final(escrow).listing_key == e.listing_key
            &&& final(escrow).listing is None
            &&& final(escrow).deposit == 0
        },
{
    let listing = match escrow.listing {
        Some(l) => l,
        None => {
            return Err(ListingError::ListingClosed);
        },
    };
    if !listing.seller.same_as(&seller.key) {
        return Err(ListingError::Unauthorized);
    }
    if !listing.is_active(now) {
        return Err(ListingError::ListingNotActive);
    }
    if !matches_key(&escrow.asset.group, &group) {
        return Err(ListingError::InvalidGroup);
    }
    // Payment.
    if buyer.lamports < listing.price {
        return Err(ListingError::InsufficientFunds);
    }
    if seller.lamports > u64::MAX - listing.price || seller.lamports + listing.price > u64::MAX
        - escrow.deposit {
        return Err(ListingError::ArithmeticOverflow);
    }
    let buyer_after = buyer.lamports - listing.price;
    let seller_after = seller.lamports + listing.price + escrow.deposit;
    // Unlock, then transfer, both under the listing record's capability.
    let mut staged = *escrow;
    if !staged.asset.authorizes(&staged.listing_key, DelegateRole::Lock) {
        return Err(ListingError::Unauthorized);
    }
    staged.asset.state = AssetState::Unlocked;
    if !staged.asset.authorizes(&staged.listing_key, DelegateRole::Transfer) {
        return Err(ListingError::Unauthorized);
    }
    staged.asset.owner = buyer.key;
    staged.asset.delegate = None;
    // Close the record.
    staged.listing = None;
    staged.deposit = 0;
    buyer.lamports = buyer_after;
    seller.lamports = seller_after;
    *escrow = staged;
    Ok(())
}

/// The asset minted for a buyer of `offering`: owned by the buyer, in the
/// offering's group, bound to its owner unless the offering is transferable.
pub open spec fn minted_for(offering: ServiceOffering, buyer: Pubkey) -> AssetView {
    AssetView {
        owner: buyer,
        group: Some(offering.asset_id),
        standard: if offering.is_transferrable {
            AssetStandard::NonFungible
        } else {
            AssetStandard::Soulbound
        },
        state: AssetState::Unlocked,
        delegate: None,
    }
}

/// The first failure of a purchase from `offering`, in the order the unit
/// meets them (mint, payment, then the sale counter), if any.
pub open spec fn service_refusal(
    offering: ServiceOffering,
    vendor: Wallet,
    buyer: Wallet,
    now: i64,
) -> Option<ServiceOfferingError> {
    if vendor.key@ != offering.vendor@ {
        Some(ServiceOfferingError::VendorMismatch)
    } else if buyer.lamports < offering.sol_price {
        Some(ServiceOfferingError::InsufficientFunds)
    } else if vendor.lamports + offering.sol_price > u64::MAX {
        Some(ServiceOfferingError::ArithmeticOverflow)
    } else if !offering.active || offering.expired_at(now) {
        Some(ServiceOfferingError::ServiceNotActive)
    } else if offering.sold_out() {
        Some(ServiceOfferingError::SoldOut)
    } else if offering.num_sold == u64::MAX {
        Some(ServiceOfferingError::ArithmeticOverflow)
    } else {
        None
    }
}

/// Sells one unit of `offering` at time `now`, as one unit of work: an asset
/// is minted for the buyer, the buyer pays the price to the vendor, and the
/// sale is counted. The counter check comes last and decides for the whole
/// unit: on any failure nothing changes and no asset is minted.
pub fn buy_service(
    offering: &mut ServiceOffering,
    vendor: &mut Wallet,
    buyer: &mut Wallet,
    now: i64,
) -> (r: Result<AssetView, ServiceOfferingError>)
    ensures
        ({
            let refusal = service_refusal(*old(offering), *old(vendor), *old(buyer), now);
            &&& refusal is Some ==> r == Err::<AssetView, _>(refusal->0)
            &&& refusal is None ==> r == Ok::<_, ServiceOfferingError>(
                minted_for(*old(offering), old(buyer).key),
            )
        }),
        r is Err ==> *final(offering) == *old(offering) && *final(vendor) == *old(vendor)
            && *final(buyer) == *old(buyer),
        r is Ok ==> {
            &&& *final(offering) == (ServiceOffering {
                num_sold: (old(offering).num_sold + 1) as u64,
                ..*old(offering)
            })
            &&& final(buyer).key == old(buyer).key
            &&& final(buyer).lamports == old(buyer).lamports - old(offering).sol_price
            &&& final(vendor).key == old(vendor).key
            &&& final(vendor).lamports == old(vendor).lamports + old(offering).sol_price
        },
        old(offering).wf() ==> final(offering).wf(),
{
    if !vendor.key.same_as(&offering.vendor) {
        return Err(ServiceOfferingError::VendorMismatch);
    }
    // Mint, staged.
    let standard = if offering.is_transferrable {
        AssetStandard::NonFungible
    } else {
        AssetStandard::Soulbound
    };
    let minted = AssetView {
        owner: buyer.key,
        group: Some(offering.asset_id),
        standard,
        state: AssetState::Unlocked,
        delegate: None,
    };
    // Payment, staged.
    if buyer.lamports < offering.sol_price {
        return Err(ServiceOfferingError::InsufficientFunds);
    }
    if vendor.lamports > u64::MAX - offering.sol_price {
        return Err(ServiceOfferingError::ArithmeticOverflow);
    }
    let buyer_after = buyer.lamports - offering.sol_price;
    let vendor_after = vendor.lamports + offering.sol_price;
    // The counter decides for the whole unit.
    let mut staged = *offering;
    match staged.increment_sold(now) {
        Ok(()) => {},
        Err(e) => {
            return Err(e);
        },
    }
    buyer.lamports = buyer_after;
    vendor.lamports = vendor_after;
    *offering = staged;
    Ok(minted)
}

/// One call to the custody program while a new offering's group asset is set
/// up. Extension data is written before the group asset is created.
#[derive(Clone, Debug)]
pub enum GroupSetupStep {
    /// Descriptive metadata: symbol, description, external URI and image.
    Metadata { symbol: String, description: String, uri: String, image: String },
    /// Royalty rate in basis points.
    Royalties { basis_points: u64 },
    /// A creator and its share of royalties, in percent.
    Creators { creator: Pubkey, share: u8 },
    /// A link to the terms of service.
    TermsOfService { uri: String },
    /// Marks the asset as a group.
    Grouping,
    /// Creates the group asset, owned by `owner`, under the authority of the
    /// offering record.
    Create { name: String, authority: Pubkey, owner: Pubkey },
}

/// Opens a service offering at time `now`: fills the record, then returns the
/// custody calls that set up its group asset, in the order they must run, all
/// authorized by the record. The vendor is the sole creator.
pub fn create_service_offering(
    offering: &mut ServiceOffering,
    vendor: Pubkey,
    group_asset: Pubkey,
    offering_key: Pubkey,
    offering_name: String,
    max_quantity: u64,
    sol_price: u64,
    expires_at: Option<i64>,
    symbol: String,
    description: String,
    uri: String,
    image: String,
    royalty_basis_points: u64,
    terms_of_service_uri: String,
    is_transferrable: bool,
    bump: u8,
    now: i64,
) -> (r: Vec<GroupSetupStep>)
    ensures
        *final(offering) == (ServiceOffering {
            vendor,
            asset_id: group_asset,
            service_type: crate::service_offering::ServiceType::OneTime,
            num_sold: 0,
            max_quantity,
            active: true,
            sol_price,
            created_at: now,
            expires_at,
            is_transferrable,
            bump,
        }),
        r@ == seq![
            GroupSetupStep::Metadata { symbol, description, uri, image },
            GroupSetupStep::Royalties { basis_points: royalty_basis_points },
            GroupSetupStep::Creators { creator: vendor, share: 100u8 },
            GroupSetupStep::TermsOfService { uri: terms_of_service_uri },
            GroupSetupStep::Grouping,
            GroupSetupStep::Create { name: offering_name, authority: offering_key, owner: vendor },
        ],
{
    offering.create(
        vendor,
        group_asset,
        max_quantity,
        sol_price,
        expires_at,
        is_transferrable,
        bump,
        now,
    );
    let mut steps: Vec<GroupSetupStep> = Vec::new();
    steps.push(GroupSetupStep::Metadata { symbol, description, uri, image });
    steps.push(GroupSetupStep::Royalties { basis_points: royalty_basis_points });
    steps.push(GroupSetupStep::Creators { creator: vendor, share: 100 });
    steps.push(GroupSetupStep::TermsOfService { uri: terms_of_service_uri });
    steps.push(GroupSetupStep::Grouping);
    steps.push(GroupSetupStep::Create { name: offering_name, authority: offering_key, owner: vendor });
    assert(steps@ =~= seq![
        GroupSetupStep::Metadata { symbol, description, uri, image },
        GroupSetupStep::Royalties { basis_points: royalty_basis_points },
        GroupSetupStep::Creators { creator: vendor, share: 100u8 },
        GroupSetupStep::TermsOfService { uri: terms_of_service_uri },
        GroupSetupStep::Grouping,
        GroupSetupStep::Create { name: offering_name, authority: offering_key, owner: vendor },
    ]);
    steps
}

} // verus!
