//! Lifecycle core of a retail-placement marketplace: placement slots, product
//! listings, per-asset order oracles and the escrow that holds buyer funds.
//!
//! Each operation takes the records it touches and either updates them and
//! returns what the caller must still carry out (commands for the outside
//! asset program, amounts to move), or rejects with an error and changes
//! nothing.
pub mod address;
pub mod asset_program;
pub mod codec;
pub mod enums;
pub mod errors;
pub mod laws;
pub mod orders;
pub mod registry;
pub mod state;
pub mod stocking;

pub use address::{oracle_address, Address};
pub use asset_program::AssetCommand;
pub use codec::{decode_order_oracle, encode_order_oracle};
pub use enums::{
    ExternalValidationResult, OracleValidation, OrderStatus, Origin, PlacementType, ProductCategory,
};
pub use errors::{ClickCrateError, ErrorKind};
pub use orders::{
    close_oracle, complete_order, initialize_oracle, make_purchase, update_order_status,
    PurchaseReceipt,
};
pub use registry::{
    activate_clickcrate, activate_product_listing, deactivate_clickcrate,
    deactivate_product_listing, register_clickcrate, register_product_listing, update_clickcrate,
    update_product_listing,
};
pub use state::{AccountData, ClickCrateState, OrderOracle, ProductListingState, VaultAccount};
pub use stocking::{place_products, remove_products, RemovalReceipt, MAX_BATCH};
