// Provisioning of SIP accounts for a realtime-configured SIP stack: one
// logical account is stored as four records (account, credential, address of
// record, endpoint) that are written and removed together.
//
// enums     stored values of the record fields
// account   requests, accounts and their stored rows
// errors    the failures an operation reports
// identity  account ids: validation and generation
// profile   the per-transport policy that builds an account's records
// engine    the transaction steps of provisioning and deprovisioning
// store     an in-memory store driven by those steps, and its laws
pub mod account;
pub mod engine;
pub mod enums;
pub mod errors;
pub mod identity;
pub mod profile;
pub mod store;
