use ens_decoder::data::ArgsDecode;
use ens_decoder::data::DecodeError;
use ens_decoder::data::Parameter;
use ens_decoder::data::TxData;
use ens_decoder::decoder::decode;
use ens_decoder::decoder::decode_calldata;
use ens_decoder::decoder::decode_multicall;
use ens_decoder::host::Host;

/// A host whose data sources answer with a fixed name and whose ABI decoder
/// hands back a fixed value list per payload, recording what it was asked.
struct MockHost {
    resolved: Option<String>,
    abi_values: Vec<(String, Vec<String>)>,
    abi_fails: bool,
    queries: Vec<String>,
    abi_methods: Vec<String>,
}

impl MockHost {
    fn new(resolved: Option<&str>) -> Self {
        MockHost {
            resolved: resolved.map(|s| s.to_string()),
            abi_values: Vec::new(),
            abi_fails: false,
            queries: Vec::new(),
            abi_methods: Vec::new(),
        }
    }

    fn with_abi(mut self, data: &str, values: &[&str]) -> Self {
        self.abi_values
            .push((data.to_string(), values.iter().map(|v| v.to_string()).collect()));
        self
    }
}

impl Host for MockHost {
    fn query_subgraph(&mut self, url: &str, _query: &str) -> Result<String, String> {
        self.queries.push(url.to_string());
        match &self.resolved {
            Some(name) => Ok(format!("{{\"data\":{{\"domain\":{{\"name\":\"{}\"}}}}}}", name)),
            None => Err("unreachable endpoint".to_string()),
        }
    }

    fn decode_function(&mut self, method: &str, data: &str) -> Result<Vec<String>, String> {
        self.abi_methods.push(method.to_string());
        if self.abi_fails {
            return Err("malformed data".to_string());
        }
        for (known, values) in &self.abi_values {
            if known == data {
                return Ok(values.clone());
            }
        }
        Err("unexpected payload".to_string())
    }
}

fn param(name: &str, typ: &str, value: &str) -> Parameter {
    Parameter { name: name.to_string(), _type: typ.to_string(), value: value.to_string() }
}

fn request(method: &str, parameters: Option<Vec<Parameter>>) -> ArgsDecode {
    ArgsDecode {
        tx_data: TxData {
            to: "0x4976fb03C32e5B8cfe2b6cCB31c09Ba78EBaBa41".to_string(),
            method: method.to_string(),
            parameters,
        },
    }
}

#[test]
fn set_addr_formats_domain_coin_and_address() {
    let mut host = MockHost::new(Some("alice.eth"));
    let args = request(
        "setAddr",
        Some(vec![
            param("node", "bytes32", "abc123"),
            param("coinType", "uint256", "60"),
            param("a", "bytes", "0xDEAD"),
        ]),
    );
    let r = decode(&mut host, args);
    assert_eq!(
        r,
        Ok(Some(
            "On the domain **alice.eth**, set the **Ethereum** blockchain address to **0xDEAD**."
                .to_string()
        ))
    );
}

#[test]
fn set_text_formats_domain_key_and_value() {
    let mut host = MockHost::new(Some("alice.eth"));
    let args = request(
        "setText",
        Some(vec![
            param("node", "bytes32", "abc123"),
            param("key", "string", "url"),
            param("value", "string", "https://x"),
        ]),
    );
    let r = decode(&mut host, args);
    assert_eq!(
        r,
        Ok(Some(
            "On the domain **alice.eth**, set the text record **url** to **https://x**."
                .to_string()
        ))
    );
}

#[test]
fn set_addr_with_unresolved_node_keeps_the_identifier() {
    let mut host = MockHost::new(None);
    let args = request(
        "setAddr",
        Some(vec![
            param("node", "bytes32", "abc123"),
            param("coinType", "uint256", "9999"),
            param("a", "bytes", "0xBEEF"),
        ]),
    );
    let r = decode(&mut host, args);
    assert_eq!(
        r,
        Ok(Some(
            "On the domain **abc123**, set the **9999** blockchain address to **0xBEEF**."
                .to_string()
        ))
    );
}

#[test]
fn unknown_method_yields_no_description() {
    let mut host = MockHost::new(Some("alice.eth"));
    let args = request("unknownMethod", Some(vec![param("node", "bytes32", "abc123")]));
    let r = decode(&mut host, args);
    assert_eq!(r, Ok(None));
    assert!(host.queries.is_empty());
    assert!(host.abi_methods.is_empty());
}

#[test]
fn missing_parameter_fails_set_addr() {
    let mut host = MockHost::new(Some("alice.eth"));
    let args = request(
        "setAddr",
        Some(vec![param("node", "bytes32", "abc123"), param("a", "bytes", "0xDEAD")]),
    );
    assert_eq!(decode(&mut host, args), Err(DecodeError::MissingParameter));
}

#[test]
fn missing_parameter_list_fails_leaf_method() {
    let mut host = MockHost::new(Some("alice.eth"));
    assert_eq!(decode(&mut host, request("setText", None)), Err(DecodeError::MissingParameter));
}

#[test]
fn later_parameter_of_one_name_wins() {
    let mut host = MockHost::new(Some("alice.eth"));
    let args = request(
        "setText",
        Some(vec![
            param("node", "bytes32", "abc123"),
            param("key", "string", "url"),
            param("key", "string", "avatar"),
            param("value", "string", "v"),
        ]),
    );
    let r = decode(&mut host, args);
    assert_eq!(
        r,
        Ok(Some(
            "On the domain **alice.eth**, set the text record **avatar** to **v**.".to_string()
        ))
    );
}

#[test]
fn multicall_expands_two_set_text_steps_in_order() {
    let first = "0x10f13a8c1111";
    let second = "0x10f13a8c2222";
    let mut host = MockHost::new(Some("alice.eth"))
        .with_abi(first, &["abc123", "url", "https://x"])
        .with_abi(second, &["abc123", "avatar", "ipfs://y"]);
    let args = request(
        "multicall",
        Some(vec![param("data", "bytes[]", &format!("[\"{}\",\"{}\"]", first, second))]),
    );
    let r = decode(&mut host, args);
    let narrative = r.unwrap().unwrap();
    assert_eq!(
        narrative,
        "A multi-step transaction is being performed. \
         **Step 1**: On the domain **alice.eth**, set the text record **url** to **https://x**. \
         **Step 2**: On the domain **alice.eth**, set the text record **avatar** to **ipfs://y**."
    );
    let step1 = narrative.find("**Step 1**:").unwrap();
    let step2 = narrative.find("**Step 2**:").unwrap();
    assert!(step1 < step2);
}

#[test]
fn multicall_with_no_payloads_is_just_the_prefix() {
    let mut host = MockHost::new(Some("alice.eth"));
    let args = request("multicall", Some(vec![param("data", "bytes[]", "[]")]));
    let r = decode(&mut host, args);
    assert_eq!(r, Ok(Some("A multi-step transaction is being performed.".to_string())));
    assert!(host.queries.is_empty());
    assert!(host.abi_methods.is_empty());
}

#[test]
fn multicall_without_data_parameter_is_missing_parameter() {
    let mut host = MockHost::new(Some("alice.eth"));
    let args = request("multicall", Some(vec![param("x", "bytes", "0x")]));
    assert_eq!(decode(&mut host, args), Err(DecodeError::MissingParameter));
}

#[test]
fn unknown_selector_aborts_the_expansion() {
    let mut host = MockHost::new(Some("alice.eth"));
    let args = request("multicall", Some(vec![param("data", "bytes[]", "[\"0xdeadbeef00\"]")]));
    assert_eq!(decode(&mut host, args), Err(DecodeError::UnknownSelector));
}

#[test]
fn short_payload_is_an_unknown_selector() {
    let mut host = MockHost::new(Some("alice.eth"));
    let to = "0x0".to_string();
    let r = decode_calldata(&mut host, &to, &"0xab".to_string());
    assert_eq!(r, Err(DecodeError::UnknownSelector));
}

#[test]
fn failed_abi_decode_is_malformed_data() {
    let mut host = MockHost::new(Some("alice.eth"));
    host.abi_fails = true;
    let to = "0x0".to_string();
    let r = decode_calldata(&mut host, &to, &"0x10f13a8c1111".to_string());
    assert_eq!(r, Err(DecodeError::MalformedData));
}

#[test]
fn arity_mismatch_is_malformed_data() {
    let mut host = MockHost::new(Some("alice.eth")).with_abi("0x10f13a8c1111", &["abc123", "url"]);
    let to = "0x0".to_string();
    let r = decode_calldata(&mut host, &to, &"0x10f13a8c1111".to_string());
    assert_eq!(r, Err(DecodeError::MalformedData));
}

#[test]
fn nested_step_without_description_uses_the_sentinel() {
    // clearRecords is registered but has no leaf description
    let mut host = MockHost::new(Some("alice.eth")).with_abi("0x3603d758ff", &["abc123"]);
    let to = "0x0".to_string();
    let params = vec![param("data", "bytes[]", "[\"0x3603d758ff\"]")];
    let r = decode_multicall(&mut host, &to, &params);
    assert_eq!(
        r,
        Ok("A multi-step transaction is being performed. **Step 1**: no description available"
            .to_string())
    );
}

#[test]
fn nested_two_argument_set_addr_lacks_coin_type() {
    // the two-argument setAddr descriptor has no coinType, so its leaf
    // decode fails with the missing-parameter error
    let mut host =
        MockHost::new(Some("alice.eth")).with_abi("0xd5fa2b00ff", &["abc123", "0xDEAD"]);
    let to = "0x0".to_string();
    let params = vec![param("data", "bytes[]", "[\"0xd5fa2b00ff\"]")];
    assert_eq!(decode_multicall(&mut host, &to, &params), Err(DecodeError::MissingParameter));
}

#[test]
fn canonical_signature_reaches_the_abi_decoder() {
    let mut host =
        MockHost::new(Some("alice.eth")).with_abi("0x8b95dd71ff", &["abc123", "60", "0xDEAD"]);
    let to = "0x0".to_string();
    let r = decode_calldata(&mut host, &to, &"0x8b95dd71ff".to_string());
    assert_eq!(
        r,
        Ok("On the domain **alice.eth**, set the **Ethereum** blockchain address to **0xDEAD**."
            .to_string())
    );
    assert_eq!(host.abi_methods, vec!["function setAddr(bytes32,uint256,bytes)".to_string()]);
}
