//! Verified core of a threshold-gated escrow.
//!
//! A seller opens an escrow record for a sale window. Once the window has
//! closed, the proceeds that accumulated at the record's address are released
//! to the seller if they reached the declared threshold; buyers who hold a
//! genuine certificate of purchase may hand it in for a refund of the sale
//! price.
//!
//! The operations decide; they never move funds themselves. Each returns the
//! instructions that the host has to carry out, and the host commits the
//! changed record together with them or not at all.

pub mod address;
pub mod error;
pub mod state;
pub mod derivation;
pub mod metadata;
pub mod accounts;
pub mod instructions;
pub mod certificate;
pub mod operations;
pub mod laws;

pub use accounts::{Account, InitProtectionConfig, ReleaseFunds, RequestRefund, SignerInfo, TokenAccount};
pub use address::Address;
pub use certificate::{certificate_evidence, verify_certificate, CertificateEvidence};
pub use derivation::{config_address, master_edition_address, metadata_address};
pub use error::ErrorCode;
pub use instructions::{Burn, Refund, SignerSeeds, Transfer};
pub use metadata::{Creator, Metadata, MetadataAccount};
pub use operations::{
    initialize_config, initialize_config_with, provide_refund, provide_refund_with, release_funds,
    release_funds_with,
};
pub use state::{available_proceeds, future_end_time, past_end_sales_time, Clock, ProtectionConfig};
