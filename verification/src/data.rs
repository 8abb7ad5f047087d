//! The data model of a decode request: named parameters, transaction data,
//! the request wrapper, and the error kinds of the pipeline.

use vstd::prelude::*;
use crate::strutil::str_eq;

verus! {

/// One named argument of a contract call, with its value already rendered
/// as a display string.
pub struct Parameter {
    pub name: String,
    pub _type: String,
    pub value: String,
}

/// The call to describe: target address, method name, and (when available)
/// the already-parsed named parameters.
pub struct TxData {
    pub to: String,
    pub method: String,
    pub parameters: Option<Vec<Parameter>>,
}

/// A decode request as handed in by the host.
pub struct ArgsDecode {
    pub tx_data: TxData,
}

/// The ways a decode can fail.
#[derive(PartialEq, Eq, Structural, Clone, Copy, Debug)]
pub enum DecodeError {
    /// A parameter that the method requires is absent from the request.
    MissingParameter,
    /// A nested call's selector is not in the signature registry.
    UnknownSelector,
    /// The external ABI decoder rejected a payload, or returned a value list
    /// whose arity does not match the descriptor.
    MalformedData,
}

/// A parameter list reduced to its mathematical content: the (name, value)
/// pairs in order.
pub open spec fn params_view(params: Seq<Parameter>) -> Seq<(Seq<char>, Seq<char>)> {
    params.map_values(|p: Parameter| (p.name@, p.value@))
}

/// The value of the last pair named `name`, if any: when a request holds
/// several parameters of one name (the contract forbids it, but nothing
/// checks), the later one wins.
pub open spec fn pair_value(pairs: Seq<(Seq<char>, Seq<char>)>, name: Seq<char>) -> Option<
    Seq<char>,
>
    decreases pairs.len(),
{
    if pairs.len() == 0 {
        None
    } else if pairs.last().0 == name {
        Some(pairs.last().1)
    } else {
        pair_value(pairs.drop_last(), name)
    }
}

/// Looks a parameter up by name, last occurrence winning.
pub fn find_param(params: &Vec<Parameter>, name: &str) -> (r: Option<String>)
    ensures
        match r {
            Some(v) => pair_value(params_view(params@), name@) == Some(v@),
            None => pair_value(params_view(params@), name@) is None,
        },
{
    let mut found: Option<String> = None;
    let mut i: usize = 0;
    while i < params.len()
        invariant
            i <= params@.len(),
            match found {
                Some(v) => pair_value(params_view(params@.take(i as int)), name@) == Some(v@),
                None => pair_value(params_view(params@.take(i as int)), name@) is None,
            },
        decreases params@.len() - i,
    {
        if str_eq(params[i].name.as_str(), name) {
            found = Some(params[i].value.clone());
        }
        proof {
            assert(params_view(params@.take(i + 1 as int)).drop_last() =~= params_view(
                params@.take(i as int),
            ));
            assert(params_view(params@.take(i + 1 as int)).last() == (
                params@[i as int].name@,
                params@[i as int].value@,
            ));
        }
        i = i + 1;
    }
    proof {
        assert(params@.take(params@.len() as int) =~= params@);
    }
    found
}

} // verus!
