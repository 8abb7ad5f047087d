//! The domain resolver: a fixed, priority-ordered list of name-registry
//! data sources is queried in turn, and the first response from which the
//! fixed pattern extracts a name wins; later sources are never tried.  When
//! every source fails — by transport error or by a response with no
//! extractable name — the opaque identifier is returned unchanged.

use vstd::prelude::*;
use vstd::string::StringExecFns;
use crate::host::Host;
use crate::scan::extract_name;
use crate::scan::extracted_name;

verus! {

/// What one data source contributed: its response text, or `None` for a
/// transport or server error.
pub type SourceResponse = Option<Seq<char>>;

/// The name a source's contribution yields: the pattern's extraction from
/// its response text, nothing from an error.
pub open spec fn response_name(resp: SourceResponse) -> Option<Seq<char>> {
    match resp {
        Some(text) => extracted_name(text),
        None => None,
    }
}

/// The resolution of `node` against an ordered list of source
/// contributions: the first extracted name, or `node` itself when no
/// source yields one.
pub open spec fn resolve_outcome(node: Seq<char>, responses: Seq<SourceResponse>) -> Seq<char>
    decreases responses.len(),
{
    if responses.len() == 0 {
        node
    } else {
        match response_name(responses[0]) {
            Some(name) => name,
            None => resolve_outcome(node, responses.drop_first()),
        }
    }
}

/// When every configured source errors or answers with text from which the
/// pattern extracts no name, resolution returns the identifier unchanged.
pub proof fn lemma_resolve_all_fail(node: Seq<char>, responses: Seq<SourceResponse>)
    requires
        forall|i: int| 0 <= i < responses.len() ==> response_name(#[trigger] responses[i]) is None,
    ensures
        resolve_outcome(node, responses) == node,
    decreases responses.len(),
{
    if responses.len() > 0 {
        assert(response_name(responses[0]) is None);
        lemma_resolve_all_fail(node, responses.drop_first());
    }
}

/// First success wins: when the primary source's response yields a name,
/// that name is the resolution, whatever every later source would have
/// answered.
pub proof fn lemma_resolve_primary_wins(node: Seq<char>, responses: Seq<SourceResponse>)
    requires
        responses.len() >= 1,
        response_name(responses[0]) is Some,
    ensures
        resolve_outcome(node, responses) == response_name(responses[0])->Some_0,
{
}

/// Holds when `domain` is a value the resolver can return for `node`:
/// either the identifier itself, or a name the fixed pattern extracts from
/// some response text.
pub open spec fn domain_resolution_of(node: Seq<char>, domain: Seq<char>) -> bool {
    domain == node || exists|text: Seq<char>| extracted_name(text) == Some(domain)
}

/// The endpoint address of a named data source.
pub open spec fn source_url(source: Seq<char>) -> Seq<char> {
    "https://api.thegraph.com/subgraphs/name/"@ + source
}

/// The head of the fixed query template, up to the interpolated node
/// identifier.
pub open spec fn query_prefix() -> Seq<char> {
    "query {\n            domain(id: \""@
}

/// The tail of the fixed query template, after the node identifier.
pub open spec fn query_suffix() -> Seq<char> {
    "\") {\n                name\n            }\n        }"@
}

/// The query sent for a node: the fixed template with the identifier
/// interpolated verbatim as the domain id.
pub open spec fn node_query(node: Seq<char>) -> Seq<char> {
    query_prefix() + node + query_suffix()
}

/// Builds the endpoint address of a named data source.
pub fn build_source_url(source: &str) -> (r: String)
    ensures
        r@ == source_url(source@),
{
    let mut url = String::from_str("https://api.thegraph.com/subgraphs/name/");
    url.append(source);
    url
}

/// Builds the query for a node from the fixed template.
pub fn build_node_query(node: &str) -> (r: String)
    ensures
        r@ == node_query(node@),
{
    let mut query = String::from_str("query {\n            domain(id: \"");
    query.append(node);
    query.append("\") {\n                name\n            }\n        }");
    proof {
        assert(query@ =~= node_query(node@));
    }
    query
}

/// Queries one data source for `node` — the url and the query handed to the
/// host are exactly `source_url(source)` and `node_query(node)` — and
/// extracts the name from its response, if both steps succeed.
fn query_source<H: Host>(host: &mut H, source: &str, node: &str) -> (r: Option<String>)
    ensures
        r matches Some(name) ==> exists|text: Seq<char>| extracted_name(text) == Some(name@),
{
    let url = build_source_url(source);
    let query = build_node_query(node);
    match host.query_subgraph(url.as_str(), query.as_str()) {
        Ok(resp) => {
            let extracted = extract_name(resp.as_str());
            proof {
                if extracted is Some {
                    assert(extracted_name(resp@) == Some(extracted->Some_0@));
                }
            }
            extracted
        },
        Err(_) => None,
    }
}

/// Resolves an opaque node identifier to a human name through the ordered
/// data sources; on total failure the identifier comes back unchanged.
pub fn decode_node<H: Host>(host: &mut H, node: String) -> (r: String)
    ensures
        domain_resolution_of(node@, r@),
{
    match query_source(host, "ensdomains/ens", node.as_str()) {
        Some(name) => {
            return name;
        },
        None => {},
    }
    match query_source(host, "ensdomains/ensgoerli", node.as_str()) {
        Some(name) => {
            return name;
        },
        None => {},
    }
    node
}

} // verus!
