//! Marketplace settlement: service offerings redeemable for minted assets,
//! and escrowed listings of existing assets.
pub mod custody;
pub mod error;
pub mod listing;
pub mod pubkey;
pub mod service_offering;
pub mod settlement;

pub use custody::{AssetDelegate, AssetStandard, AssetState, AssetView, DelegateRole, DelegateRoles};
pub use error::{ListingError, ServiceOfferingError};
pub use listing::Listing;
pub use pubkey::Pubkey;
pub use service_offering::{ServiceOffering, ServiceType};
pub use settlement::{buy_listing, buy_service, create_service_offering, list_asset, Escrow, GroupSetupStep, Wallet};
