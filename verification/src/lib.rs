//! A verified model of an NFT sale contract: an owner configures the sale,
//! manages admins and a whitelist, and mints numbered tokens either for free
//! (the owner) or against an exact payment (whitelisted users).

pub mod keyorder;
pub mod decimal;
pub mod store;
pub mod state;
pub mod error;
pub mod msg;
pub mod contract;
pub mod laws;
