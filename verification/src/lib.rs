//! Verified domain logic of a multi-user bookkeeping service: identifiers,
//! permissions, journals and their members, accounts, funds, activities,
//! double-entry transactions and their read model, grants and roles, and the
//! statistics read from Jewel church bookkeeping databases.

pub mod ident;
pub mod idmap;
pub mod ids;
pub mod authority;
pub mod status;
pub mod store;
pub mod name;
pub mod permissions;
pub mod journal;
pub mod grant;
pub mod role;
pub mod jewel;
pub mod known_errors;
pub mod event_sourcing;
pub mod money;
pub mod queue;
pub mod wire;
