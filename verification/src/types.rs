pub mod accounts;
pub mod child_bounties;
pub mod claims;
pub mod extensions;
pub mod layout;
pub mod network;
pub mod payload;
pub mod worker;
