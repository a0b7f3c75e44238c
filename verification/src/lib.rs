//! A minimal, synchronous client library for a Kubernetes control plane.
//!
//! The library loads connection and identity material from a kubeconfig
//! document, derives a mutually-authenticated TLS client from it, lists
//! resources by incrementally decoding chunked response bodies, and offers a
//! time-based post-filter over events.  All decision logic is verified; the
//! calls into the transport, the codec crates and the filesystem stand behind
//! trusted wrappers whose contracts state what those crates document.

pub mod config;
pub mod decode;
pub mod errors;
pub mod kubernetes;
pub mod resources;
pub mod uri;
