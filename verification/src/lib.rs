//! Recognition of Balancer V2 pool creations.
//!
//! A pool comes into being in one transaction: a factory is called with
//! `create`, emits `PoolCreated`, and the vault registers the pool and its
//! tokens. [`pool_factories::address_map`] reads these signals from the call,
//! the log and the logs of the transaction and turns them into one component
//! record, or reports that the call and the log are no pool creation of a
//! factory it knows.
//!
//! - [`factory`]: the table of factories, their `create` calls and the
//!   `PoolCreated` event;
//! - [`vault`]: the vault's events and the search for them in a transaction;
//! - [`pool_factories`]: the assembly of the component and the dispatch;
//! - [`component`]: the component record;
//! - [`trace`]: logs, calls and transactions as the library reads them;
//! - [`abi`]: decoded contract values;
//! - [`encoding`]: the byte formats of identifiers and attribute values;
//! - [`outside`]: the calls into other crates, and what is taken on trust of
//!   them;
//! - [`laws`]: what is proved of all of the above.

pub mod abi;
pub mod component;
pub mod encoding;
pub mod factory;
pub mod laws;
pub mod outside;
pub mod pool_factories;
pub mod trace;
pub mod vault;
