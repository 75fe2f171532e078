//! Daedalus: a local catalog for AI model artifacts.
//!
//! This crate holds the verified core of the catalog: the model taxonomy,
//! configuration defaults, resolution and validation, deterministic file
//! placement, path inference, catalog row decoding and the service's
//! decisions. Everything that touches the disk, the network or the process
//! environment is performed by the caller, which hands the results in as
//! plain values.

pub mod text;
pub mod domain;
pub mod common;
pub mod paths;
pub mod config;
pub mod placement;
pub mod sources;
pub mod catalog;
pub mod service;
pub mod api;
pub mod ordering;
