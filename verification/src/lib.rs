//! The decision core of a self-extracting application launcher.
//!
//! A packaged application is a single executable that carries its payload.
//! On every start the launcher works out where the payload is cached, decides
//! whether that cache entry is still valid for the running executable,
//! rebuilds it when it is not, and hands control to the unpacked program.
//!
//! This crate holds every decision of that sequence and proves it against a
//! mathematical model. Reading the environment and the filesystem, unpacking
//! the payload and starting the program are left to the caller.

pub mod cache;
pub mod error;
pub mod freshness;
pub mod launcher;
pub mod magic;
pub mod protocol;
