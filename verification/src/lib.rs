//! Decoding of name-service contract calls into natural-language
//! descriptions.
//!
//! The library turns an already-parsed call request (target address, method
//! name, named parameters) into a short English sentence, expands aggregated
//! `multicall` payloads into a numbered narrative, and resolves opaque node
//! identifiers to human domain names through an ordered list of data
//! sources.  Network queries and generic ABI decoding are performed by a
//! host-supplied implementation of the [`host::Host`] trait; everything the
//! library itself computes is verified.

pub mod coins;
pub mod data;
pub mod decoder;
pub mod host;
pub mod registry;
pub mod resolver;
pub mod scan;
pub mod strutil;
