//! Storage layer of a photo gallery: a catalog of photo metadata records
//! persisted in an embedded SQLite store, with verified query and mutation
//! operations over a model of the stored rows.

pub mod catalog;
pub mod error;
pub mod model;
pub mod order;
pub mod photo;
pub mod store;
