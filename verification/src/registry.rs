//! The signature registry: a fixed map from a 4-byte function selector
//! (written as `0x` plus 8 lowercase hex digits) to the descriptor of a
//! name-service contract method, and the canonical signature string derived
//! from a descriptor.  Lookup is exact: no case normalization is performed,
//! and any selector outside the fixed set is simply not found.

use vstd::prelude::*;
use vstd::string::StrSliceExecFns;
use vstd::string::StringExecFns;
use crate::strutil::str_eq;

verus! {

/// A registered method: its name and its ordered argument types and names.
pub struct FunctionDescriptor {
    pub name: String,
    pub arg_types: Vec<String>,
    pub arg_names: Vec<String>,
}

/// The mathematical content of a descriptor.
pub struct DescriptorView {
    pub name: Seq<char>,
    pub arg_types: Seq<Seq<char>>,
    pub arg_names: Seq<Seq<char>>,
}

impl View for FunctionDescriptor {
    type V = DescriptorView;

    open spec fn view(&self) -> DescriptorView {
        DescriptorView {
            name: self.name@,
            arg_types: self.arg_types.deep_view(),
            arg_names: self.arg_names.deep_view(),
        }
    }
}

/// The registry as a mapping: the descriptor registered for a selector, or
/// `None` for any selector outside the fixed set.
pub open spec fn registry_spec(sel: Seq<char>) -> Option<DescriptorView> {
    if sel == "0xa4b91a01"@ {
        Some(DescriptorView {
            name: "approve"@,
            arg_types: seq!["bytes32"@, "address"@, "bool"@],
            arg_names: seq!["node"@, "delegate"@, "approved"@],
        })
    } else if sel == "0x3603d758"@ {
        Some(DescriptorView {
            name: "clearRecords"@,
            arg_types: seq!["bytes32"@],
            arg_names: seq!["node"@],
        })
    } else if sel == "0x623195b0"@ {
        Some(DescriptorView {
            name: "setABI"@,
            arg_types: seq!["bytes32"@, "uint256"@, "bytes"@],
            arg_names: seq!["node"@, "contentType"@, "data"@],
        })
    } else if sel == "0x8b95dd71"@ {
        Some(DescriptorView {
            name: "setAddr"@,
            arg_types: seq!["bytes32"@, "uint256"@, "bytes"@],
            arg_names: seq!["node"@, "coinType"@, "a"@],
        })
    } else if sel == "0xd5fa2b00"@ {
        Some(DescriptorView {
            name: "setAddr"@,
            arg_types: seq!["bytes32"@, "address"@],
            arg_names: seq!["node"@, "a"@],
        })
    } else if sel == "0xa22cb465"@ {
        Some(DescriptorView {
            name: "setApprovalForAll"@,
            arg_types: seq!["address"@, "bool"@],
            arg_names: seq!["operator"@, "approved"@],
        })
    } else if sel == "0x304e6ade"@ {
        Some(DescriptorView {
            name: "setContentHash"@,
            arg_types: seq!["bytes32"@, "bytes"@],
            arg_names: seq!["node"@, "hash"@],
        })
    } else if sel == "0x0af179d7"@ {
        Some(DescriptorView {
            name: "setDNSRecords"@,
            arg_types: seq!["bytes32"@, "bytes"@],
            arg_names: seq!["node"@, "data"@],
        })
    } else if sel == "0xe59d895d"@ {
        Some(DescriptorView {
            name: "setInterface"@,
            arg_types: seq!["bytes32"@, "bytes4"@, "address"@],
            arg_names: seq!["node"@, "interfaceID"@, "implementer"@],
        })
    } else if sel == "0x77372213"@ {
        Some(DescriptorView {
            name: "setName"@,
            arg_types: seq!["bytes32"@, "string"@],
            arg_names: seq!["node"@, "newName"@],
        })
    } else if sel == "0x29cd62ea"@ {
        Some(DescriptorView {
            name: "setPubkey"@,
            arg_types: seq!["bytes32"@, "bytes32"@, "bytes32"@],
            arg_names: seq!["node"@, "x"@, "y"@],
        })
    } else if sel == "0x10f13a8c"@ {
        Some(DescriptorView {
            name: "setText"@,
            arg_types: seq!["bytes32"@, "string"@, "string"@],
            arg_names: seq!["node"@, "key"@, "value"@],
        })
    } else if sel == "0xce3decdc"@ {
        Some(DescriptorView {
            name: "setZonehash"@,
            arg_types: seq!["bytes32"@, "bytes"@],
            arg_names: seq!["node"@, "hash"@],
        })
    } else {
        None
    }
}

/// In every registered descriptor the argument types and argument names
/// line up one to one, and there is at least one argument: a decoder that
/// honors the canonical signature's arity therefore yields exactly one
/// value per argument name.
pub proof fn lemma_registry_descriptor_wf(sel: Seq<char>)
    ensures
        registry_spec(sel) matches Some(d) ==> {
            &&& d.arg_types.len() == d.arg_names.len()
            &&& d.arg_types.len() >= 1
        },
{
}

fn vec1(a: &str) -> (r: Vec<String>)
    ensures
        r.deep_view() =~= seq![a@],
{
    let mut v: Vec<String> = Vec::new();
    v.push(String::from_str(a));
    v
}

fn vec2(a: &str, b: &str) -> (r: Vec<String>)
    ensures
        r.deep_view() =~= seq![a@, b@],
{
    let mut v: Vec<String> = Vec::new();
    v.push(String::from_str(a));
    v.push(String::from_str(b));
    v
}

fn vec3(a: &str, b: &str, c: &str) -> (r: Vec<String>)
    ensures
        r.deep_view() =~= seq![a@, b@, c@],
{
    let mut v: Vec<String> = Vec::new();
    v.push(String::from_str(a));
    v.push(String::from_str(b));
    v.push(String::from_str(c));
    v
}

/// Looks a selector up in the registry: the literal first ten characters of
/// a hex call payload, lowercase, exactly as registered.
pub fn decode_function_signature(signature: String) -> (r: Option<FunctionDescriptor>)
    ensures
        match r {
            Some(d) => registry_spec(signature@) == Some(d@),
            None => registry_spec(signature@) is None,
        },
{
    let s = signature.as_str();
    if str_eq(s, "0xa4b91a01") {
        Some(FunctionDescriptor {
            name: String::from_str("approve"),
            arg_types: vec3("bytes32", "address", "bool"),
            arg_names: vec3("node", "delegate", "approved"),
        })
    } else if str_eq(s, "0x3603d758") {
        Some(FunctionDescriptor {
            name: String::from_str("clearRecords"),
            arg_types: vec1("bytes32"),
            arg_names: vec1("node"),
        })
    } else if str_eq(s, "0x623195b0") {
        Some(FunctionDescriptor {
            name: String::from_str("setABI"),
            arg_types: vec3("bytes32", "uint256", "bytes"),
            arg_names: vec3("node", "contentType", "data"),
        })
    } else if str_eq(s, "0x8b95dd71") {
        Some(FunctionDescriptor {
            name: String::from_str("setAddr"),
            arg_types: vec3("bytes32", "uint256", "bytes"),
            arg_names: vec3("node", "coinType", "a"),
        })
    } else if str_eq(s, "0xd5fa2b00") {
        Some(FunctionDescriptor {
            name: String::from_str("setAddr"),
            arg_types: vec2("bytes32", "address"),
            arg_names: vec2("node", "a"),
        })
    } else if str_eq(s, "0xa22cb465") {
        Some(FunctionDescriptor {
            name: String::from_str("setApprovalForAll"),
            arg_types: vec2("address", "bool"),
            arg_names: vec2("operator", "approved"),
        })
    } else if str_eq(s, "0x304e6ade") {
        Some(FunctionDescriptor {
            name: String::from_str("setContentHash"),
            arg_types: vec2("bytes32", "bytes"),
            arg_names: vec2("node", "hash"),
        })
    } else if str_eq(s, "0x0af179d7") {
        Some(FunctionDescriptor {
            name: String::from_str("setDNSRecords"),
            arg_types: vec2("bytes32", "bytes"),
            arg_names: vec2("node", "data"),
        })
    } else if str_eq(s, "0xe59d895d") {
        Some(FunctionDescriptor {
            name: String::from_str("setInterface"),
            arg_types: vec3("bytes32", "bytes4", "address"),
            arg_names: vec3("node", "interfaceID", "implementer"),
        })
    } else if str_eq(s, "0x77372213") {
        Some(FunctionDescriptor {
            name: String::from_str("setName"),
            arg_types: vec2("bytes32", "string"),
            arg_names: vec2("node", "newName"),
        })
    } else if str_eq(s, "0x29cd62ea") {
        Some(FunctionDescriptor {
            name: String::from_str("setPubkey"),
            arg_types: vec3("bytes32", "bytes32", "bytes32"),
            arg_names: vec3("node", "x", "y"),
        })
    } else if str_eq(s, "0x10f13a8c") {
        Some(FunctionDescriptor {
            name: String::from_str("setText"),
            arg_types: vec3("bytes32", "string", "string"),
            arg_names: vec3("node", "key", "value"),
        })
    } else if str_eq(s, "0xce3decdc") {
        Some(FunctionDescriptor {
            name: String::from_str("setZonehash"),
            arg_types: vec2("bytes32", "bytes"),
            arg_names: vec2("node", "hash"),
        })
    } else {
        None
    }
}

/// Comma-joined argument types: no spaces, no trailing comma.
pub open spec fn comma_join(parts: Seq<Seq<char>>) -> Seq<char>
    decreases parts.len(),
{
    if parts.len() == 0 {
        Seq::empty()
    } else if parts.len() == 1 {
        parts[0]
    } else {
        comma_join(parts.drop_last()) + ","@ + parts.last()
    }
}

/// The canonical signature text that drives generic ABI decoding.
pub open spec fn canonical_signature(name: Seq<char>, arg_types: Seq<Seq<char>>) -> Seq<char> {
    "function "@ + name + "("@ + comma_join(arg_types) + ")"@
}

/// Builds the canonical signature `function name(type1,type2,...)` of a
/// descriptor.
pub fn build_signature(descriptor: &FunctionDescriptor) -> (r: String)
    ensures
        r@ == canonical_signature(descriptor@.name, descriptor@.arg_types),
{
    let mut arg_types = String::new();
    let n = descriptor.arg_types.len();
    let mut i: usize = 0;
    while i < n
        invariant
            n == descriptor.arg_types@.len(),
            i <= n,
            arg_types@ == comma_join(descriptor@.arg_types.take(i as int)),
        decreases n - i,
    {
        if i > 0 {
            arg_types.append(",");
        }
        arg_types.append(descriptor.arg_types[i].as_str());
        proof {
            let parts = descriptor@.arg_types;
            assert(parts.take(i + 1 as int).drop_last() =~= parts.take(i as int));
            assert(parts.take(i + 1 as int).last() == parts[i as int]);
            if i == 0 {
                assert(comma_join(parts.take(1)) == parts[0]);
            }
        }
        i = i + 1;
    }
    proof {
        assert(descriptor@.arg_types.take(descriptor.arg_types@.len() as int)
            =~= descriptor@.arg_types);
    }
    let mut result = String::from_str("function ");
    result.append(descriptor.name.as_str());
    result.append("(");
    result.append(arg_types.as_str());
    result.append(")");
    result
}

} // verus!
