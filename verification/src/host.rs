//! The two collaborator interfaces the pipeline consumes.  Issuing the
//! network query and performing generic ABI byte-decoding are out of the
//! library's scope: the host implements this trait, and the pipeline states
//! in its own contracts what holds whatever the host returns.

use vstd::prelude::*;

verus! {

/// Host-supplied collaborators: a query executor for name-registry data
/// sources and a generic ABI function-call decoder.
///
/// No contract constrains these methods: a query answer depends on the
/// network and an ABI decode on an external codec, so the library's
/// functions promise only what holds of every possible outcome.
pub trait Host {
    /// Issues `query` against the data source at `url` and returns the raw
    /// response text, or an error for a transport or server failure.
    fn query_subgraph(&mut self, url: &str, query: &str) -> Result<String, String>;

    /// Decodes the arguments of the raw hex call data `data` against the
    /// canonical signature `method` (`function name(type1,type2,...)`) and
    /// returns them in order, each rendered as a display string, or an
    /// error when the byte layout does not match the signature.
    fn decode_function(&mut self, method: &str, data: &str) -> Result<Vec<String>, String>;
}

} // verus!
