use ens_decoder::host::Host;
use ens_decoder::resolver::decode_node;

/// A host whose two data sources answer from a scripted list, recording how
/// many queries were issued.
struct ScriptedHost {
    answers: Vec<Result<String, String>>,
    asked: usize,
}

impl ScriptedHost {
    fn new(answers: Vec<Result<String, String>>) -> Self {
        ScriptedHost { answers, asked: 0 }
    }
}

impl Host for ScriptedHost {
    fn query_subgraph(&mut self, _url: &str, _query: &str) -> Result<String, String> {
        let answer = self.answers[self.asked].clone();
        self.asked += 1;
        answer
    }

    fn decode_function(&mut self, _method: &str, _data: &str) -> Result<Vec<String>, String> {
        Err("not under test".to_string())
    }
}

#[test]
fn all_sources_erring_returns_the_identifier_unchanged() {
    let mut host = ScriptedHost::new(vec![
        Err("down".to_string()),
        Err("down".to_string()),
    ]);
    let r = decode_node(&mut host, "abc123".to_string());
    assert_eq!(r, "abc123");
    assert_eq!(host.asked, 2);
}

#[test]
fn all_sources_lacking_a_name_field_return_the_identifier_unchanged() {
    let mut host = ScriptedHost::new(vec![
        Ok("{\"data\":{\"domain\":null}}".to_string()),
        Ok("{\"errors\":[{\"message\":\"no such domain\"}]}".to_string()),
    ]);
    let r = decode_node(&mut host, "abc123".to_string());
    assert_eq!(r, "abc123");
    assert_eq!(host.asked, 2);
}

#[test]
fn primary_source_wins_and_the_secondary_is_never_tried() {
    let mut host = ScriptedHost::new(vec![
        Ok("{\"data\":{\"domain\":{\"name\":\"primary.eth\"}}}".to_string()),
        Ok("{\"data\":{\"domain\":{\"name\":\"secondary.eth\"}}}".to_string()),
    ]);
    let r = decode_node(&mut host, "abc123".to_string());
    assert_eq!(r, "primary.eth");
    assert_eq!(host.asked, 1);
}

#[test]
fn a_failing_primary_falls_back_to_the_secondary() {
    let mut host = ScriptedHost::new(vec![
        Err("down".to_string()),
        Ok("{\"data\":{\"domain\":{\"name\":\"secondary.eth\"}}}".to_string()),
    ]);
    let r = decode_node(&mut host, "abc123".to_string());
    assert_eq!(r, "secondary.eth");
    assert_eq!(host.asked, 2);
}

#[test]
fn the_sources_are_queried_in_their_fixed_order() {
    struct UrlRecorder {
        urls: Vec<String>,
    }
    impl Host for UrlRecorder {
        fn query_subgraph(&mut self, url: &str, _query: &str) -> Result<String, String> {
            self.urls.push(url.to_string());
            Err("down".to_string())
        }

        fn decode_function(&mut self, _m: &str, _d: &str) -> Result<Vec<String>, String> {
            Err("not under test".to_string())
        }
    }
    let mut host = UrlRecorder { urls: Vec::new() };
    decode_node(&mut host, "abc123".to_string());
    assert_eq!(
        host.urls,
        vec![
            "https://api.thegraph.com/subgraphs/name/ensdomains/ens".to_string(),
            "https://api.thegraph.com/subgraphs/name/ensdomains/ensgoerli".to_string(),
        ]
    );
}

#[test]
fn the_query_embeds_the_node_identifier() {
    struct QueryRecorder {
        queries: Vec<String>,
    }
    impl Host for QueryRecorder {
        fn query_subgraph(&mut self, _url: &str, query: &str) -> Result<String, String> {
            self.queries.push(query.to_string());
            Err("down".to_string())
        }

        fn decode_function(&mut self, _m: &str, _d: &str) -> Result<Vec<String>, String> {
            Err("not under test".to_string())
        }
    }
    let mut host = QueryRecorder { queries: Vec::new() };
    decode_node(&mut host, "abc123".to_string());
    assert_eq!(host.queries.len(), 2);
    assert!(host.queries[0].contains("domain(id: \"abc123\")"));
}
