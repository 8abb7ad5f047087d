use ens_decoder::coins::decode_coin_type;
use ens_decoder::registry::build_signature;
use ens_decoder::registry::decode_function_signature;
use ens_decoder::scan::extract_name;
use ens_decoder::scan::extract_payloads;
use ens_decoder::strutil::usize_to_string;

#[test]
fn mapped_coin_types_get_their_display_names() {
    assert_eq!(decode_coin_type("0".to_string()), "Bitcoin");
    assert_eq!(decode_coin_type("2".to_string()), "Litecoin");
    assert_eq!(decode_coin_type("22".to_string()), "Monacoin");
    assert_eq!(decode_coin_type("60".to_string()), "Ethereum");
    assert_eq!(decode_coin_type("61".to_string()), "Ethereum Classic");
    assert_eq!(decode_coin_type("137".to_string()), "Rootstock");
    assert_eq!(decode_coin_type("144".to_string()), "Ripple");
    assert_eq!(decode_coin_type("145".to_string()), "Bitcoin Cash");
    assert_eq!(decode_coin_type("714".to_string()), "Binance");
}

#[test]
fn unmapped_coin_type_comes_back_unchanged() {
    assert_eq!(decode_coin_type("9999".to_string()), "9999");
    assert_eq!(decode_coin_type("".to_string()), "");
}

#[test]
fn every_registered_descriptor_types_and_names_line_up() {
    let selectors = [
        "0xa4b91a01", "0x3603d758", "0x623195b0", "0x8b95dd71", "0xd5fa2b00", "0xa22cb465",
        "0x304e6ade", "0x0af179d7", "0xe59d895d", "0x77372213", "0x29cd62ea", "0x10f13a8c",
        "0xce3decdc",
    ];
    for selector in selectors {
        let descriptor = decode_function_signature(selector.to_string()).unwrap();
        assert_eq!(descriptor.arg_types.len(), descriptor.arg_names.len());
        assert!(!descriptor.arg_types.is_empty());
        // the canonical signature drives a decoder of matching arity: it
        // holds exactly one type per argument name
        let signature = build_signature(&descriptor);
        let inner = signature
            .strip_prefix(&format!("function {}(", descriptor.name))
            .unwrap()
            .strip_suffix(")")
            .unwrap();
        assert_eq!(inner.split(',').count(), descriptor.arg_names.len());
    }
}

#[test]
fn unregistered_or_misshaped_selectors_are_not_found() {
    assert!(decode_function_signature("0xdeadbeef".to_string()).is_none());
    assert!(decode_function_signature("".to_string()).is_none());
    // lookup is exact: no case normalization
    assert!(decode_function_signature("0xA4B91A01".to_string()).is_none());
    // nor any trimming of longer payloads
    assert!(decode_function_signature("0xa4b91a0100".to_string()).is_none());
}

#[test]
fn set_text_signature_is_canonical() {
    let descriptor = decode_function_signature("0x10f13a8c".to_string()).unwrap();
    assert_eq!(descriptor.name, "setText");
    assert_eq!(build_signature(&descriptor), "function setText(bytes32,string,string)");
}

#[test]
fn clear_records_signature_has_one_argument() {
    let descriptor = decode_function_signature("0x3603d758".to_string()).unwrap();
    assert_eq!(build_signature(&descriptor), "function clearRecords(bytes32)");
}

#[test]
fn payload_extraction_finds_maximal_hex_runs_in_order() {
    assert_eq!(
        extract_payloads("[\"0xab12\",\"0xCD\"]"),
        vec!["0xab12".to_string(), "0xCD".to_string()]
    );
    assert_eq!(extract_payloads("xx0xff00yy"), vec!["0xff00".to_string()]);
    assert_eq!(extract_payloads("00x1"), vec!["0x1".to_string()]);
    assert_eq!(extract_payloads(""), Vec::<String>::new());
    // a bare 0x with no digit is no payload
    assert_eq!(extract_payloads("0x,0xg"), Vec::<String>::new());
    // two payloads glued together merge into one run: an accepted
    // limitation of the textual heuristic
    assert_eq!(extract_payloads("0xab0xcd"), vec!["0xab0".to_string()]);
}

#[test]
fn name_extraction_follows_the_fixed_pattern() {
    assert_eq!(extract_name("{\"name\": \"alice.eth\"}"), Some("alice.eth".to_string()));
    assert_eq!(extract_name("\"name\":\"x\""), Some("x".to_string()));
    assert_eq!(extract_name("\"name\":   \n\t\"y.eth\","), Some("y.eth".to_string()));
    // the value is the longest whitespace-free run ending before a quote
    assert_eq!(extract_name("\"name\":\"a\"\"b\""), Some("a\"\"b".to_string()));
    // the leftmost match wins
    assert_eq!(
        extract_name("\"name\": \"first.eth\" \"name\": \"second.eth\""),
        Some("first.eth".to_string())
    );
    assert_eq!(extract_name("{\"data\":{\"domain\":null}}"), None);
    // a whitespace inside the quotes stops the pattern
    assert_eq!(extract_name("\"name\": \"a b\""), None);
    // whitespace is the Unicode white-space set: a no-break space is
    // skipped after the colon and stops a quoted value
    assert_eq!(extract_name("\"name\":\u{a0}\"z.eth\""), Some("z.eth".to_string()));
    assert_eq!(extract_name("\"name\": \"a\u{a0}b\""), None);
    assert_eq!(extract_name("\"name\": \"\""), None);
    assert_eq!(extract_name(""), None);
}

#[test]
fn counters_render_in_decimal() {
    assert_eq!(usize_to_string(0), "0");
    assert_eq!(usize_to_string(7), "7");
    assert_eq!(usize_to_string(10), "10");
    assert_eq!(usize_to_string(12345), "12345");
}
