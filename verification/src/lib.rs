//! Verified core of a payment platform: the payment contracts' state
//! machines and the decisions of the backend services around them.

// Values shared by the contracts, and the ledger as a contract sees it.
pub mod address;
pub mod env;
pub mod num;
pub mod table;

// The payment contracts.
pub mod advanced_payment;
pub mod analytics;
pub mod compliance;
pub mod duplicates;
pub mod escrow;
pub mod limits;
pub mod payment_escrow;
pub mod recovery;
pub mod splitter;
pub mod verification;

// The backend services.
pub mod api_error;
pub mod cache;
pub mod disputes;
pub mod ids;
pub mod metrics;
pub mod paths;
pub mod rate_limit;
pub mod text;
pub mod version_docs;
pub mod versioning;
pub mod windows;
