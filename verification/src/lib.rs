//! A memory-safe TLS engine behind a boundary of opaque handles, status codes
//! and caller-supplied network callbacks.
#![allow(non_camel_case_types)]

pub mod cipher;
pub mod connection;
pub mod engine;
pub mod enums;
pub mod error;
pub mod io;
pub mod os;
pub mod pem;
pub mod rslice;
pub mod suites;
pub mod userdata;
