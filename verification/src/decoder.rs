//! The call decoder and the multicall expander.
//!
//! The decoder dispatches on the method name: `setAddr` and `setText` are
//! formatted as single sentences (resolving the node identifier and the
//! coin type on the way), `multicall` is expanded into a numbered
//! narrative, and any other method yields no description.  The expander
//! mines the aggregated data for nested payloads and re-derives each one's
//! method and parameters through the signature registry and the host's
//! generic ABI decoder.

use vstd::prelude::*;
use vstd::string::StrSliceExecFns;
use vstd::string::StringExecFns;
use crate::coins::coin_name;
use crate::coins::decode_coin_type;
use crate::data::ArgsDecode;
use crate::data::DecodeError;
use crate::data::Parameter;
use crate::data::find_param;
use crate::data::pair_value;
use crate::data::params_view;
use crate::host::Host;
use crate::registry::FunctionDescriptor;
use crate::registry::build_signature;
use crate::registry::decode_function_signature;
use crate::registry::registry_spec;
use crate::resolver::decode_node;
use crate::resolver::domain_resolution_of;
use crate::scan::extract_payloads;
use crate::scan::payloads_of;
use crate::strutil::dec_str;
use crate::strutil::str_eq;
use crate::strutil::usize_to_string;

verus! {

/// The sentence announcing an address record update.
pub open spec fn set_addr_sentence(domain: Seq<char>, coin: Seq<char>, address: Seq<char>) -> Seq<
    char,
> {
    "On the domain **"@ + domain + "**, set the **"@ + coin + "** blockchain address to **"@
        + address + "**."@
}

/// The sentence announcing a text record update.
pub open spec fn set_text_sentence(domain: Seq<char>, key: Seq<char>, value: Seq<char>) -> Seq<
    char,
> {
    "On the domain **"@ + domain + "**, set the text record **"@ + key + "** to **"@ + value
        + "**."@
}

/// The sentinel text of a nested call whose method has no description.
pub open spec fn no_description() -> Seq<char> {
    "no description available"@
}

/// A `Result` of strings reduced to views.
pub open spec fn result_view(r: Result<String, DecodeError>) -> Result<Seq<char>, DecodeError> {
    match r {
        Ok(s) => Ok(s@),
        Err(e) => Err(e),
    }
}

/// The contract of `setAddr` decoding over a parameter list: with `node`,
/// `coinType` and `a` all present the outcome is the address sentence, its
/// domain some resolution of `node` and its coin the table's name for
/// `coinType`; with any of the three absent the outcome is exactly
/// `MissingParameter`.
pub open spec fn set_addr_result(
    pairs: Seq<(Seq<char>, Seq<char>)>,
    r: Result<Seq<char>, DecodeError>,
) -> bool {
    let node = pair_value(pairs, "node"@);
    let coin_type = pair_value(pairs, "coinType"@);
    let address = pair_value(pairs, "a"@);
    if node is Some && coin_type is Some && address is Some {
        match r {
            Ok(s) => exists|domain: Seq<char>|
                domain_resolution_of(node->Some_0, domain) && s == set_addr_sentence(
                    domain,
                    coin_name(coin_type->Some_0),
                    address->Some_0,
                ),
            Err(_) => false,
        }
    } else {
        r == Err::<Seq<char>, DecodeError>(DecodeError::MissingParameter)
    }
}

/// The contract of `setText` decoding, in the same shape: `node`, `key`
/// and `value` must be present.
pub open spec fn set_text_result(
    pairs: Seq<(Seq<char>, Seq<char>)>,
    r: Result<Seq<char>, DecodeError>,
) -> bool {
    let node = pair_value(pairs, "node"@);
    let key = pair_value(pairs, "key"@);
    let value = pair_value(pairs, "value"@);
    if node is Some && key is Some && value is Some {
        match r {
            Ok(s) => exists|domain: Seq<char>|
                domain_resolution_of(node->Some_0, domain) && s == set_text_sentence(
                    domain,
                    key->Some_0,
                    value->Some_0,
                ),
            Err(_) => false,
        }
    } else {
        r == Err::<Seq<char>, DecodeError>(DecodeError::MissingParameter)
    }
}

/// The contract of one nested step's description: the leaf methods as
/// above, anything else the sentinel text.
pub open spec fn step_result(
    method: Seq<char>,
    pairs: Seq<(Seq<char>, Seq<char>)>,
    r: Result<Seq<char>, DecodeError>,
) -> bool {
    if method == "setAddr"@ {
        set_addr_result(pairs, r)
    } else if method == "setText"@ {
        set_text_result(pairs, r)
    } else {
        r == Ok::<Seq<char>, DecodeError>(no_description())
    }
}

fn format_set_addr(domain: &String, coin: &String, address: &String) -> (r: String)
    ensures
        r@ == set_addr_sentence(domain@, coin@, address@),
{
    let mut result = String::from_str("On the domain **");
    result.append(domain.as_str());
    result.append("**, set the **");
    result.append(coin.as_str());
    result.append("** blockchain address to **");
    result.append(address.as_str());
    result.append("**.");
    proof {
        assert(result@ =~= set_addr_sentence(domain@, coin@, address@));
    }
    result
}

fn format_set_text(domain: &String, key: &String, value: &String) -> (r: String)
    ensures
        r@ == set_text_sentence(domain@, key@, value@),
{
    let mut result = String::from_str("On the domain **");
    result.append(domain.as_str());
    result.append("**, set the text record **");
    result.append(key.as_str());
    result.append("** to **");
    result.append(value.as_str());
    result.append("**.");
    proof {
        assert(result@ =~= set_text_sentence(domain@, key@, value@));
    }
    result
}

/// Describes a `setAddr` call: resolves the node, names the coin type, and
/// formats the address sentence.
pub fn decode_set_addr<H: Host>(host: &mut H, params: &Vec<Parameter>) -> (r: Result<
    String,
    DecodeError,
>)
    ensures
        set_addr_result(params_view(params@), result_view(r)),
{
    let node = find_param(params, "node");
    let coin_type = find_param(params, "coinType");
    let address = find_param(params, "a");
    match (node, coin_type, address) {
        (Some(node), Some(coin_type), Some(address)) => {
            let domain = decode_node(host, node);
            let coin = decode_coin_type(coin_type);
            let sentence = format_set_addr(&domain, &coin, &address);
            proof {
                let pairs = params_view(params@);
                assert(domain_resolution_of(pair_value(pairs, "node"@)->Some_0, domain@)
                    && sentence@ == set_addr_sentence(
                    domain@,
                    coin_name(pair_value(pairs, "coinType"@)->Some_0),
                    pair_value(pairs, "a"@)->Some_0,
                ));
            }
            Ok(sentence)
        },
        _ => Err(DecodeError::MissingParameter),
    }
}

/// Describes a `setText` call: resolves the node and formats the text
/// record sentence.
pub fn decode_set_text<H: Host>(host: &mut H, params: &Vec<Parameter>) -> (r: Result<
    String,
    DecodeError,
>)
    ensures
        set_text_result(params_view(params@), result_view(r)),
{
    let node = find_param(params, "node");
    let key = find_param(params, "key");
    let value = find_param(params, "value");
    match (node, key, value) {
        (Some(node), Some(key), Some(value)) => {
            let domain = decode_node(host, node);
            let sentence = format_set_text(&domain, &key, &value);
            proof {
                let pairs = params_view(params@);
                assert(domain_resolution_of(pair_value(pairs, "node"@)->Some_0, domain@)
                    && sentence@ == set_text_sentence(
                    domain@,
                    pair_value(pairs, "key"@)->Some_0,
                    pair_value(pairs, "value"@)->Some_0,
                ));
            }
            Ok(sentence)
        },
        _ => Err(DecodeError::MissingParameter),
    }
}

/// Describes one nested call of an aggregated transaction: a leaf method's
/// sentence, or the sentinel text for a method with no description.
fn decode_step<H: Host>(host: &mut H, method: &String, params: &Vec<Parameter>) -> (r: Result<
    String,
    DecodeError,
>)
    ensures
        step_result(method@, params_view(params@), result_view(r)),
{
    if str_eq(method.as_str(), "setAddr") {
        decode_set_addr(host, params)
    } else if str_eq(method.as_str(), "setText") {
        decode_set_text(host, params)
    } else {
        Ok(String::from_str("no description available"))
    }
}

/// The parameter pairs a nested call is rebuilt with: the descriptor's
/// argument names zipped, by position, with the decoded values.
pub open spec fn zip_pairs(names: Seq<Seq<char>>, values: Seq<Seq<char>>) -> Seq<
    (Seq<char>, Seq<char>),
> {
    Seq::new(names.len(), |i: int| (names[i], values[i]))
}

fn build_parameters(descriptor: &FunctionDescriptor, values: &Vec<String>) -> (r: Vec<Parameter>)
    requires
        values.deep_view().len() == descriptor@.arg_names.len(),
        descriptor@.arg_types.len() == descriptor@.arg_names.len(),
    ensures
        params_view(r@) == zip_pairs(descriptor@.arg_names, values.deep_view()),
{
    let n = descriptor.arg_names.len();
    let mut out: Vec<Parameter> = Vec::new();
    let mut i: usize = 0;
    while i < n
        invariant
            n == descriptor.arg_names@.len(),
            n == descriptor.arg_types@.len(),
            n == values@.len(),
            i <= n,
            out@.len() == i,
            forall|j: int|
                0 <= j < i ==> (#[trigger] out@[j]).name@ == descriptor@.arg_names[j]
                    && out@[j].value@ == values.deep_view()[j],
        decreases n - i,
    {
        out.push(
            Parameter {
                name: descriptor.arg_names[i].clone(),
                _type: descriptor.arg_types[i].clone(),
                value: values[i].clone(),
            },
        );
        i = i + 1;
    }
    proof {
        assert(params_view(out@) =~= zip_pairs(descriptor@.arg_names, values.deep_view()));
    }
    out
}

/// The contract of decoding one raw nested payload: a payload whose first
/// ten characters are no registered selector fails with `UnknownSelector`;
/// for a registered selector the outcome is either `MalformedData` (the
/// external ABI decode failed, or its arity did not match the descriptor)
/// or the step outcome for the descriptor's method over some decoded value
/// list of matching arity.
pub open spec fn calldata_result(p: Seq<char>, r: Result<Seq<char>, DecodeError>) -> bool {
    if p.len() < 10 || registry_spec(p.subrange(0, 10)) is None {
        r == Err::<Seq<char>, DecodeError>(DecodeError::UnknownSelector)
    } else {
        let d = registry_spec(p.subrange(0, 10))->Some_0;
        match r {
            Ok(s) => exists|values: Seq<Seq<char>>|
                values.len() == d.arg_names.len() && step_result(
                    d.name,
                    zip_pairs(d.arg_names, values),
                    Ok(s),
                ),
            Err(e) => e == DecodeError::MalformedData || exists|values: Seq<Seq<char>>|
                values.len() == d.arg_names.len() && step_result(
                    d.name,
                    zip_pairs(d.arg_names, values),
                    Err(e),
                ),
        }
    }
}

/// Decodes one raw nested payload: selector lookup, canonical signature
/// reconstruction, external ABI decode, parameter rebuilding, and the leaf
/// description.
pub fn decode_calldata<H: Host>(host: &mut H, to: &String, calldata: &String) -> (r: Result<
    String,
    DecodeError,
>)
    ensures
        calldata_result(calldata@, result_view(r)),
{
    let data = calldata.as_str();
    if data.unicode_len() < 10 {
        return Err(DecodeError::UnknownSelector);
    }
    let sig = String::from_str(data.substring_char(0, 10));
    let function = match decode_function_signature(sig) {
        Some(function) => function,
        None => {
            return Err(DecodeError::UnknownSelector);
        },
    };
    let method = build_signature(&function);
    let values = match host.decode_function(method.as_str(), data) {
        Ok(values) => values,
        Err(_) => {
            return Err(DecodeError::MalformedData);
        },
    };
    if values.len() != function.arg_names.len() {
        return Err(DecodeError::MalformedData);
    }
    let parameters = build_parameters(&function, &values);
    let r = decode_step(host, &function.name, &parameters);
    proof {
        let d = registry_spec(calldata@.subrange(0, 10))->Some_0;
        assert(values.deep_view().len() == d.arg_names.len() && step_result(
            d.name,
            zip_pairs(d.arg_names, values.deep_view()),
            result_view(r),
        ));
    }
    r
}

/// The opening sentence of an aggregated call's narrative.
pub open spec fn multicall_prefix() -> Seq<char> {
    "A multi-step transaction is being performed."@
}

/// The header that introduces the `n`-th step of the narrative.
pub open spec fn step_header(n: nat) -> Seq<char> {
    " **Step "@ + dec_str(n) + "**: "@
}

/// The narrative built from the step descriptions, in order: the prefix
/// sentence, then each description under a one-based step header.
pub open spec fn narrative(texts: Seq<Seq<char>>) -> Seq<char>
    decreases texts.len(),
{
    if texts.len() == 0 {
        multicall_prefix()
    } else {
        narrative(texts.drop_last()) + step_header(texts.len()) + texts.last()
    }
}

/// The contract of expanding an aggregated call over its parameter list:
/// with no `data` parameter the outcome is exactly `MissingParameter`; with
/// one, a successful outcome is the narrative over one description per
/// extracted payload, each related to its payload as in `calldata_result`,
/// and a failure is a failure some extracted payload can produce.
pub open spec fn multicall_result(
    pairs: Seq<(Seq<char>, Seq<char>)>,
    r: Result<Seq<char>, DecodeError>,
) -> bool {
    match pair_value(pairs, "data"@) {
        None => r == Err::<Seq<char>, DecodeError>(DecodeError::MissingParameter),
        Some(data) => {
            let payloads = payloads_of(data);
            match r {
                Ok(s) => exists|texts: Seq<Seq<char>>|
                    {
                        &&& texts.len() == payloads.len()
                        &&& s == narrative(texts)
                        &&& forall|i: int|
                            0 <= i < payloads.len() ==> calldata_result(
                                payloads[i],
                                Ok(#[trigger] texts[i]),
                            )
                    },
                Err(e) => exists|i: int|
                    0 <= i < payloads.len() && calldata_result(#[trigger] payloads[i], Err(e)),
            }
        },
    }
}

/// Expands an aggregated call: extracts every nested payload from the
/// `data` parameter, decodes each in order, and numbers the descriptions
/// into one narrative.
pub fn decode_multicall<H: Host>(host: &mut H, to: &String, params: &Vec<Parameter>) -> (r: Result<
    String,
    DecodeError,
>)
    ensures
        multicall_result(params_view(params@), result_view(r)),
        ({
            let data = pair_value(params_view(params@), "data"@);
            data is None || payloads_of(data->Some_0).len() == 0
        }) ==> *final(host) == *old(host),
{
    let data = match find_param(params, "data") {
        Some(data) => data,
        None => {
            return Err(DecodeError::MissingParameter);
        },
    };
    let calldatas = extract_payloads(data.as_str());
    let mut result = String::from_str("A multi-step transaction is being performed.");
    if calldatas.len() == 0 {
        proof {
            let pairs = params_view(params@);
            let bound = payloads_of(pair_value(pairs, "data"@)->Some_0);
            let texts0 = Seq::<Seq<char>>::empty();
            assert(result@ =~= narrative(texts0));
            assert(texts0.len() == bound.len() && result@ == narrative(texts0) && (forall|i: int|
                0 <= i < bound.len() ==> calldata_result(bound[i], Ok(#[trigger] texts0[i]))));
        }
        return Ok(result);
    }
    let ghost payloads = payloads_of(data@);
    let ghost mut texts: Seq<Seq<char>> = Seq::empty();
    let mut counter: usize = 0;
    proof {
        assert(result@ =~= narrative(texts));
    }
    while counter < calldatas.len()
        invariant
            pair_value(params_view(params@), "data"@) == Some(data@),
            payloads == payloads_of(data@),
            calldatas.deep_view() == payloads,
            counter <= payloads.len(),
            calldatas@.len() == payloads.len(),
            texts.len() == counter,
            result@ == narrative(texts),
            forall|i: int|
                0 <= i < counter ==> calldata_result(payloads[i], Ok(#[trigger] texts[i])),
        decreases calldatas@.len() - counter,
    {
        proof {
            assert(calldatas@[counter as int]@ == calldatas.deep_view()[counter as int]);
        }
        let step = match decode_calldata(host, to, &calldatas[counter]) {
            Ok(step) => step,
            Err(e) => {
                proof {
                    let pairs = params_view(params@);
                    let bound = payloads_of(pair_value(pairs, "data"@)->Some_0);
                    assert(bound == payloads);
                    assert(calldata_result(bound[counter as int], Err(e)));
                    assert(exists|i: int|
                        0 <= i < bound.len() && calldata_result(#[trigger] bound[i], Err(e)));
                }
                return Err(e);
            },
        };
        counter = counter + 1;
        result.append(" **Step ");
        let num = usize_to_string(counter);
        result.append(num.as_str());
        result.append("**: ");
        result.append(step.as_str());
        proof {
            let extended = texts.push(step@);
            assert(extended.drop_last() =~= texts);
            assert(narrative(extended) == narrative(texts) + step_header(counter as nat)
                + step@);
            texts = extended;
            assert(result@ =~= narrative(texts));
        }
    }
    proof {
        assert(texts.len() == payloads.len() && result@ == narrative(texts) && (forall|i: int|
            0 <= i < payloads.len() ==> calldata_result(payloads[i], Ok(#[trigger] texts[i]))));
    }
    Ok(result)
}

/// A request's parameter list reduced to pairs, when one is present.
pub open spec fn opt_params_view(params: Option<Vec<Parameter>>) -> Option<
    Seq<(Seq<char>, Seq<char>)>,
> {
    match params {
        Some(ps) => Some(params_view(ps@)),
        None => None,
    }
}

/// A `Result` of optional strings reduced to views.
pub open spec fn opt_result_view(r: Result<Option<String>, DecodeError>) -> Result<
    Option<Seq<char>>,
    DecodeError,
> {
    match r {
        Ok(Some(s)) => Ok(Some(s@)),
        Ok(None) => Ok(None),
        Err(e) => Err(e),
    }
}

/// The contract of one recognized method's decode over its parameter
/// pairs.
pub open spec fn method_result(
    method: Seq<char>,
    pairs: Seq<(Seq<char>, Seq<char>)>,
    r: Result<Seq<char>, DecodeError>,
) -> bool {
    if method == "setAddr"@ {
        set_addr_result(pairs, r)
    } else if method == "setText"@ {
        set_text_result(pairs, r)
    } else {
        multicall_result(pairs, r)
    }
}

/// The contract of the top-level decode: an unrecognized method yields no
/// description and never fails; a recognized one without a parameter list
/// fails with `MissingParameter`, and with one follows that method's
/// contract.
pub open spec fn decode_result(
    method: Seq<char>,
    params: Option<Seq<(Seq<char>, Seq<char>)>>,
    r: Result<Option<Seq<char>>, DecodeError>,
) -> bool {
    if method == "setAddr"@ || method == "setText"@ || method == "multicall"@ {
        match params {
            None => r == Err::<Option<Seq<char>>, DecodeError>(DecodeError::MissingParameter),
            Some(pairs) => match r {
                Ok(Some(s)) => method_result(method, pairs, Ok(s)),
                Ok(None) => false,
                Err(e) => method_result(method, pairs, Err(e)),
            },
        }
    } else {
        r == Ok::<Option<Seq<char>>, DecodeError>(None)
    }
}

/// Decodes a call request into its natural-language description:
/// `setAddr` and `setText` sentences, an expanded `multicall` narrative,
/// and no description for any other method.
pub fn decode<H: Host>(host: &mut H, args: ArgsDecode) -> (r: Result<Option<String>, DecodeError>)
    ensures
        decode_result(
            args.tx_data.method@,
            opt_params_view(args.tx_data.parameters),
            opt_result_view(r),
        ),
        ({
            let method = args.tx_data.method@;
            let params = opt_params_view(args.tx_data.parameters);
            ||| !(method == "setAddr"@ || method == "setText"@ || method == "multicall"@)
            ||| params is None
            ||| (method == "multicall"@ && params is Some && (pair_value(
                params->Some_0,
                "data"@,
            ) is None || payloads_of(pair_value(params->Some_0, "data"@)->Some_0).len() == 0))
        }) ==> *final(host) == *old(host),
{
    proof {
        // the purity clause needs the leaf method names told apart from the
        // aggregate's
        reveal_strlit("setAddr");
        reveal_strlit("setText");
        reveal_strlit("multicall");
        assert("setAddr"@.len() == 7 && "setText"@.len() == 7 && "multicall"@.len() == 9);
        assert("setAddr"@ != "multicall"@ && "setText"@ != "multicall"@);
    }
    let method = args.tx_data.method.as_str();
    let is_set_addr = str_eq(method, "setAddr");
    let is_set_text = str_eq(method, "setText");
    let is_multicall = str_eq(method, "multicall");
    if !(is_set_addr || is_set_text || is_multicall) {
        return Ok(None);
    }
    let params = match &args.tx_data.parameters {
        Some(params) => params,
        None => {
            return Err(DecodeError::MissingParameter);
        },
    };
    let sub = if is_set_addr {
        decode_set_addr(host, params)
    } else if is_set_text {
        decode_set_text(host, params)
    } else {
        decode_multicall(host, &args.tx_data.to, params)
    };
    match sub {
        Ok(s) => Ok(Some(s)),
        Err(e) => Err(e),
    }
}

} // verus!
