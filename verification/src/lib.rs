//! Who may publish the packages that a project depends on.
//!
//! The heart of the library is a local cache of the registry's ownership
//! data, filled from a bulk dump that the registry publishes:
//!
//! - [`records`] and [`publishers`] hold the kinds of record and the
//!   descriptor of a publisher that lookups hand out;
//! - [`tabular`], with [`numbers`], reads the tables of the dump into
//!   records, and [`index`] files them by key;
//! - [`crates_cache`] is the cache as it is held in memory, [`freshness`]
//!   tells whether it is still young enough, and [`lookup`] answers who may
//!   publish a package;
//! - [`store`] stages new content and commits it, the metadata file last,
//!   and [`download`] holds the decisions of a refresh from the dump.
//!
//! Around the cache stand the pace of requests to the live API
//! ([`api_client`]), the walk through the authors of packages
//! ([`authors`]), and what the reports need: the sources and names of
//! packages ([`common`]), orders ([`sorting`]) and the lists in which
//! publishers and packages are shown ([`report`]).
//!
//! The library reads no file and opens no connection. Where a task needs
//! either, the library takes the decisions and says what is to be done;
//! the program around it does that, and hands back what came of it.
//!
//! Each function is proved to meet the contract written at its head, for
//! every input that the contract admits. The few functions that call into
//! another crate or read the clock are not: their contracts are taken on
//! trust, and their documentation says what is taken.

pub mod api_client;
pub mod authors;
pub mod common;
pub mod crates_cache;
pub mod download;
pub mod error;
pub mod freshness;
pub mod index;
pub mod lookup;
pub mod numbers;
pub mod publishers;
pub mod records;
pub mod report;
pub mod sorting;
pub mod store;
pub mod tabular;
pub mod time;
