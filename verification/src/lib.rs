//! Authorizing and driving the installation of one local package file.
//!
//! The crate holds the decisions of an installation attempt and none of its
//! input or output: a package record built from what the package daemon
//! reported, and the protocol that first asks the authorization service and
//! then drives the daemon's transaction. Whoever talks to the bus performs
//! each step the protocol names and hands the reply back.

pub mod boundary;
pub mod failure;
pub mod fields;
pub mod guarantees;
pub mod package;
pub mod protocol;
pub mod request;
