//! Acquisition and resolution engine for pinned Java toolchains.
//!
//! Given a tool name and a version string, the engine decides whether a
//! matching toolchain is already cached locally, otherwise queries a remote
//! package registry, downloads the archive, verifies its integrity against a
//! tagged digest, extracts it into a deterministic cache layout, and finally
//! assembles the process environment needed to invoke the resolved toolchain.
//!
//! All I/O (network, filesystem, subprocesses) is performed by the caller:
//! the engine exposes pure decision functions and event-driven state machines
//! whose actions tell the caller what to do next.

pub mod cache;
pub mod download;
pub mod envcomp;
pub mod errors;
pub mod integrity;
pub mod jdkmatch;
pub mod misc;
pub mod registry;
pub mod resolver;
pub mod strutil;
pub mod tool;
