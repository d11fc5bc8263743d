//! Deployment health checks for the three node roles of a distributed
//! database: coordinator, storage node and metadata service.
//!
//! A check verifies that what a role depends on (the metadata service, the
//! object storage, the metadata store) can be reached, accepts the
//! configured credentials and completes a real round trip of writing, reading
//! and deleting. Its result is a list of details, one per item checked, and
//! the verdict that the details reduce to.
//!
//! The library decides; it does not touch the network or the disk. A check
//! is a value that names the next [`probe::Action`] to perform and takes in
//! its [`probe::Outcome`]:
//!
//! ```text
//! let mut run = checker.begin();
//! loop {
//!     let action = run.pending();
//!     if action == Action::Finish { break; }
//!     run = run.record(&perform(action));
//! }
//! let result = run.try_finish();
//! ```
//!
//! - [`common`]: details, results and the reduction of the one to the other
//! - [`address`]: resolving `host:port` addresses
//! - [`connectivity`]: one connection attempt per endpoint
//! - [`s3_probe`], [`s3_report`]: the object-storage verifier
//! - [`storage`]: the choice of the storage verifier, and file-backed storage
//! - [`kv_probe`], [`sql_probe`]: the metadata-store verifiers
//! - [`frontend`], [`datanode`], [`metasrv`]: the checkers of the three roles
//! - [`config`], [`error`]: configurations and errors
//! - [`probe`], [`report`], [`text`], [`time`]: what the others are built of

pub mod address;
pub mod common;
pub mod config;
pub mod connectivity;
pub mod datanode;
pub mod error;
pub mod frontend;
pub mod kv_probe;
pub mod metasrv;
pub mod probe;
pub mod report;
pub mod s3_probe;
pub mod s3_report;
pub mod sql_probe;
pub mod storage;
pub mod text;
pub mod time;
