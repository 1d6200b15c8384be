//! Coordination core of a local speech-synthesis cache-and-dispatch service.
//!
//! A client submits text over a length-prefixed wire protocol; the server
//! either serves a previously produced audio artifact from a content-addressed
//! cache or synthesizes one through an external capability, and then walks an
//! ordered text list to pre-generate likely future requests.  This crate holds
//! the verified coordination logic: wire framing, the admission gate bounding
//! concurrent synthesis, the in-flight registry that de-duplicates synthesis
//! work, the content-addressed cache naming, and the prefetch walk.  The
//! unverified shell around it performs the actual network, filesystem, and
//! synthesis I/O.
pub mod protocol;
pub mod text;
pub mod cache;
pub mod registry;
pub mod admission;
pub mod config;
pub mod prefetch;
pub mod pipeline;
