use contract_cloner::chain::{build_url, config_for_lowered, get_chain_config};
use contract_cloner::json::{get_member, get_str_member, Json};
use contract_cloner::pipeline::{advance, after_fetch, is_placeholder, Stage};
use contract_cloner::source::{
    check_response, decode_sources, get_source_code, sources_from_response, ProtocolError,
    SourceFile,
};
use contract_cloner::text::{collapse_pairs, find_pair, find_text, split_path};

fn pairs(files: &[SourceFile]) -> Vec<(String, String)> {
    files.iter().map(|f| (f.path.clone(), f.content.clone())).collect()
}

fn answer(source_code: &str) -> String {
    let quoted = serde_json::to_string(source_code).unwrap();
    format!(
        "{{\"status\":\"1\",\"message\":\"OK\",\"result\":[{{\"SourceCode\":{},\"ContractName\":\"T\"}}]}}",
        quoted
    )
}

#[test]
fn eth_alias_resolves_in_any_case() {
    for alias in ["eth", "ETH", "Eth", "eTh"] {
        let c = get_chain_config(alias).unwrap();
        assert_eq!(c.api_url, "https://api.etherscan.io/api");
        assert_eq!(c.api_key_env, "ETHERSCAN_API_KEY");
        assert_eq!(c.chain_id, 1);
    }
}

#[test]
fn base_alias_resolves_in_any_case() {
    for alias in ["base", "BASE", "Base"] {
        let c = get_chain_config(alias).unwrap();
        assert_eq!(c.api_url, "https://api.basescan.org/api");
        assert_eq!(c.api_key_env, "BASESCAN_API_KEY");
        assert_eq!(c.chain_id, 8453);
    }
}

#[test]
fn unknown_aliases_are_refused() {
    for alias in ["polygon", "", "1", "8453", "eth ", "ethereum"] {
        assert!(get_chain_config(alias).is_none(), "{alias}");
    }
}

#[test]
fn lowered_lookup_is_exact() {
    assert!(config_for_lowered("eth").is_some());
    assert!(config_for_lowered("ETH").is_none());
    assert_eq!(config_for_lowered("base").unwrap().chain_id, 8453);
}

#[test]
fn request_url_carries_all_parameters() {
    let c = get_chain_config("eth").unwrap();
    assert_eq!(
        build_url(&c, "0xabc", "KEY"),
        "https://api.etherscan.io/api?module=contract&action=getsourcecode&address=0xabc&apikey=KEY"
    );
    let b = get_chain_config("base").unwrap();
    assert_eq!(
        build_url(&b, "", ""),
        "https://api.basescan.org/api?module=contract&action=getsourcecode&address=&apikey="
    );
}

#[test]
fn plain_source_is_single_file() {
    let files = decode_sources("// hello").unwrap();
    assert_eq!(pairs(&files), vec![("Single.sol".to_string(), "// hello".to_string())]);
}

#[test]
fn multi_file_source_yields_each_file() {
    let s = r#"{"sources":{"A.sol":{"content":"x"},"dir/B.sol":{"content":"y"}}}"#;
    let files = decode_sources(s).unwrap();
    assert_eq!(
        pairs(&files),
        vec![
            ("A.sol".to_string(), "x".to_string()),
            ("dir/B.sol".to_string(), "y".to_string()),
        ]
    );
    assert_eq!(split_path(&files[1].path), vec!["dir".to_string(), "B.sol".to_string()]);
}

#[test]
fn double_braced_source_is_collapsed() {
    let s = r#"{{"sources": {{"A.sol": {{"content": "z"}}}}}}"#;
    let files = decode_sources(s).unwrap();
    assert_eq!(pairs(&files), vec![("A.sol".to_string(), "z".to_string())]);
    let plain = decode_sources(r#"{"sources": {"A.sol": {"content": "z"}}}"#).unwrap();
    assert_eq!(pairs(&files), pairs(&plain));
}

#[test]
fn empty_source_is_refused() {
    assert!(matches!(decode_sources(""), Err(ProtocolError::EmptySource)));
    assert!(matches!(sources_from_response(&answer("")), Err(ProtocolError::EmptySource)));
}

#[test]
fn entries_without_content_are_skipped() {
    let s = r#"{"sources":{"A.sol":{"content":"a"},"B.sol":{"keccak":"0x1"},"C.sol":{"content":7}}}"#;
    let files = decode_sources(s).unwrap();
    assert_eq!(pairs(&files), vec![("A.sol".to_string(), "a".to_string())]);
}

#[test]
fn malformed_multi_file_source_is_refused() {
    assert!(matches!(decode_sources("{not json"), Err(ProtocolError::MalformedSource { .. })));
    assert!(matches!(decode_sources(r#"{"language":"Solidity"}"#), Err(ProtocolError::NoSources)));
    assert!(matches!(decode_sources(r#"{"sources":[1]}"#), Err(ProtocolError::NoSources)));
}

#[test]
fn failed_status_reports_message_and_result() {
    let body = r#"{"status":"0","message":"NOTOK","result":"Invalid API Key"}"#;
    match sources_from_response(body) {
        Err(ProtocolError::Api { message, result }) => {
            assert_eq!(message, "NOTOK");
            assert_eq!(result, "Invalid API Key");
        }
        other => panic!("unexpected {:?}", other.map(|v| v.len())),
    }
    let (stage, files) = after_fetch(body);
    assert_eq!(stage, Stage::Failed);
    assert!(files.is_empty());
}

#[test]
fn failed_status_without_details_uses_defaults() {
    match check_response(r#"{"status":"0","result":[]}"#) {
        Err(ProtocolError::Api { message, result }) => {
            assert_eq!(message, "Unknown error");
            assert_eq!(result, "No additional info");
        }
        _ => panic!("expected an API error"),
    }
}

#[test]
fn non_string_status_is_a_failure() {
    for body in [
        r#"{"status":0,"result":[{"SourceCode":"x"}]}"#,
        r#"{"status":1,"result":[{"SourceCode":"x"}]}"#,
        r#"{"status":null,"message":"m","result":[{"SourceCode":"x"}]}"#,
    ] {
        assert!(matches!(sources_from_response(body), Err(ProtocolError::Api { .. })), "{body}");
        let (stage, files) = after_fetch(body);
        assert_eq!(stage, Stage::Failed);
        assert!(files.is_empty());
    }
    match check_response(r#"{"status":false,"message":"NOTOK"}"#) {
        Err(ProtocolError::Api { message, result }) => {
            assert_eq!(message, "NOTOK");
            assert_eq!(result, "No additional info");
        }
        _ => panic!("expected an API error"),
    }
}

#[test]
fn parse_errors_carry_the_parser_message() {
    let expected = serde_json::from_str::<serde_json::Value>("{not json").unwrap_err().to_string();
    match decode_sources("{not json") {
        Err(ProtocolError::MalformedSource { detail }) => assert_eq!(detail, expected),
        _ => panic!("expected a malformed source"),
    }
    let expected = serde_json::from_str::<serde_json::Value>("<html>").unwrap_err().to_string();
    match check_response("<html>") {
        Err(ProtocolError::NotJson { detail }) => assert_eq!(detail, expected),
        _ => panic!("expected a parse error"),
    }
}

#[test]
fn repeated_paths_yield_one_file() {
    let s = r#"{"sources":{"A.sol":{"content":"1"},"A.sol":{"content":"2"}}}"#;
    let files = decode_sources(s).unwrap();
    assert_eq!(pairs(&files), vec![("A.sol".to_string(), "2".to_string())]);
}

#[test]
fn unknown_chain_stops_before_anything() {
    assert!(get_chain_config("polygon").is_none());
    let mut s = advance(Stage::ResolveChain, false);
    assert_eq!(s, Stage::Failed);
    for ok in [true, true, true] {
        s = advance(s, ok);
        assert_eq!(s, Stage::Failed);
    }
    assert_eq!(advance(Stage::ResolveChain, true), Stage::CheckPath);
}

#[test]
fn answer_without_status_is_accepted() {
    let j = check_response(r#"{"result":[{"SourceCode":"x"}]}"#).unwrap();
    assert_eq!(get_source_code(&j).unwrap(), "x");
}

#[test]
fn malformed_answers_are_refused() {
    match sources_from_response("<html>") {
        Err(ProtocolError::NotJson { detail }) => assert!(!detail.is_empty()),
        _ => panic!("expected a parse error"),
    }
    assert!(matches!(
        sources_from_response(r#"{"status":"1","result":"x"}"#),
        Err(ProtocolError::NoResultArray)
    ));
    assert!(matches!(
        sources_from_response(r#"{"status":"1","result":[]}"#),
        Err(ProtocolError::NoSourceCode)
    ));
    assert!(matches!(
        sources_from_response(r#"{"status":"1","result":[{"ABI":"[]"}]}"#),
        Err(ProtocolError::NoSourceCode)
    ));
}

#[test]
fn good_answer_moves_on_to_writing() {
    let (stage, files) = after_fetch(&answer("contract T {}"));
    assert_eq!(stage, Stage::WriteFiles);
    assert_eq!(pairs(&files), vec![("Single.sol".to_string(), "contract T {}".to_string())]);
}

#[test]
fn existing_path_stops_before_fetch() {
    let mut s = advance(Stage::CheckPath, false);
    assert_eq!(s, Stage::Failed);
    for ok in [true, true, true, true, true] {
        s = advance(s, ok);
        assert_ne!(s, Stage::Fetch);
        assert_eq!(s, Stage::Failed);
    }
}

#[test]
fn successful_run_visits_every_stage() {
    let mut s = Stage::ResolveChain;
    let mut seen = vec![s];
    while s != Stage::Finished {
        s = advance(s, true);
        seen.push(s);
    }
    assert_eq!(
        seen,
        vec![
            Stage::ResolveChain,
            Stage::CheckPath,
            Stage::CreateDir,
            Stage::InitProject,
            Stage::RemovePlaceholders,
            Stage::Fetch,
            Stage::WriteFiles,
            Stage::Finished,
        ]
    );
    assert_eq!(advance(Stage::InitProject, false), Stage::Failed);
}

#[test]
fn placeholder_files_are_recognised() {
    assert!(is_placeholder("proj/src/Counter.sol"));
    assert!(is_placeholder("Counter"));
    assert!(!is_placeholder("proj/src/Token.sol"));
    assert!(!is_placeholder("counter.sol"));
    assert!(!is_placeholder(""));
}

#[test]
fn paths_split_on_slashes() {
    assert_eq!(split_path("A.sol"), vec!["A.sol".to_string()]);
    assert_eq!(
        split_path("a/b/C.sol"),
        vec!["a".to_string(), "b".to_string(), "C.sol".to_string()]
    );
    assert_eq!(split_path(""), vec![String::new()]);
    assert_eq!(split_path("/x/"), vec![String::new(), "x".to_string(), String::new()]);
}

#[test]
fn braces_collapse_left_to_right() {
    let v: Vec<char> = "{{{a}}}".chars().collect();
    assert!(find_pair(&v, '{'));
    let once = collapse_pairs(&v, '{');
    assert_eq!(once.iter().collect::<String>(), "{{a}}}");
    let twice = collapse_pairs(&once, '}');
    assert_eq!(twice.iter().collect::<String>(), "{{a}}");
    let w: Vec<char> = "{a{b}".chars().collect();
    assert!(!find_pair(&w, '{'));
}

#[test]
fn substring_search() {
    let hay: Vec<char> = "src/Counter.t.sol".chars().collect();
    let needle: Vec<char> = "Counter".chars().collect();
    assert!(find_text(&hay, &needle));
    assert!(find_text(&hay, &Vec::new()));
    assert!(!find_text(&needle, &hay));
}

#[test]
fn json_members_are_read() {
    let j = check_response(r#"{"a":"x","b":[1,2],"c":null}"#).unwrap();
    assert_eq!(get_str_member(&j, "a").unwrap(), "x");
    assert!(get_str_member(&j, "b").is_none());
    assert!(matches!(get_member(&j, "b"), Some(Json::Array(v)) if v.len() == 2));
    assert!(matches!(get_member(&j, "c"), Some(Json::Null)));
    assert!(get_member(&j, "d").is_none());
    assert!(matches!(check_response("{"), Err(ProtocolError::NotJson { .. })));
}
