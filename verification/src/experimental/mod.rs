//! Experimental utilities.
pub mod download;
pub mod store;
