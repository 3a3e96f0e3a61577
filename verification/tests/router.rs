use claimeer::router::{
    default_light_client, deserialize_from_any_case, deserialize_from_csv, page_not_found,
    parse_field, serialize_as_csv, switch, Query, Routes,
};
use claimeer::runtimes::support::SupportedRelayRuntime;
use claimeer::types::payload::{create_payload_as_string, to_be_bytes};

#[test]
fn routes_and_paths() {
    assert_eq!(Routes::from_path("/"), Routes::Index);
    assert_eq!(Routes::from_path("/about"), Routes::NotFound);
    assert_eq!(Routes::from_path(""), Routes::NotFound);
    assert_eq!(Routes::Index.to_path(), "/");
    assert_eq!(Routes::NotFound.to_path(), "/404");
    assert_eq!(switch(Routes::Index), None);
    assert_eq!(switch(Routes::NotFound), Some(page_not_found()));
    assert_eq!(page_not_found().target, Routes::Index);
    assert_eq!(page_not_found().button, "go back");
}

#[test]
fn chain_parameter_in_any_case() {
    assert_eq!(deserialize_from_any_case("kusama"), SupportedRelayRuntime::Kusama);
    assert_eq!(deserialize_from_any_case("KuSaMa"), SupportedRelayRuntime::Kusama);
    assert_eq!(deserialize_from_any_case("KSM"), SupportedRelayRuntime::Kusama);
    assert_eq!(deserialize_from_any_case("Paseo"), SupportedRelayRuntime::Paseo);
    assert_eq!(deserialize_from_any_case("pas"), SupportedRelayRuntime::Paseo);
    assert_eq!(deserialize_from_any_case("DOT"), SupportedRelayRuntime::Polkadot);
    assert_eq!(deserialize_from_any_case("polkadot"), SupportedRelayRuntime::Polkadot);
    assert_eq!(deserialize_from_any_case("westend"), SupportedRelayRuntime::Polkadot);
    assert_eq!(deserialize_from_any_case(""), SupportedRelayRuntime::Polkadot);
}

#[test]
fn query_defaults() {
    assert!(default_light_client());
    let query = Query::new();
    assert_eq!(query.chain, SupportedRelayRuntime::Polkadot);
    assert!(query.lc);
    assert!(query.bounties.is_empty());
    assert_eq!(Query::from_params(None, None, None), query);
}

#[test]
fn query_from_parameters() {
    let query = Query::from_params(Some("KUSAMA"), Some(false), Some("12,3,12"));
    assert_eq!(
        query,
        Query { chain: SupportedRelayRuntime::Kusama, lc: false, bounties: vec![3, 12] }
    );
}

#[test]
fn csv_of_bounties_is_read_as_a_set() {
    assert_eq!(deserialize_from_csv("1,2,3"), vec![1, 2, 3]);
    assert_eq!(deserialize_from_csv("30,1,30,2"), vec![1, 2, 30]);
    assert_eq!(deserialize_from_csv(""), Vec::<u32>::new());
    assert_eq!(deserialize_from_csv("7"), vec![7]);
}

#[test]
fn csv_fields_that_spell_no_number_are_passed_over() {
    assert_eq!(deserialize_from_csv("1,,x,2a, 3,4 ,-5,+6,007"), vec![1, 6, 7]);
    assert_eq!(deserialize_from_csv(",,"), Vec::<u32>::new());
    assert_eq!(deserialize_from_csv("+"), Vec::<u32>::new());
    assert_eq!(deserialize_from_csv("++1"), Vec::<u32>::new());
    assert_eq!(deserialize_from_csv("4294967295,4294967296"), vec![u32::MAX]);
    assert_eq!(deserialize_from_csv("99999999999999999999999999,0"), vec![0]);
    assert_eq!(deserialize_from_csv("1,é,2"), vec![1, 2]);
}

#[test]
fn csv_reading_agrees_with_the_standard_parser() {
    for csv in ["1,2", "+1", "-1", "0010", " 1", "1 ", "4294967296", "", "a", "1,,2", "٣"] {
        let mut expected: Vec<u32> = csv.split(',').filter_map(|s| s.parse::<u32>().ok()).collect();
        expected.sort();
        expected.dedup();
        assert_eq!(deserialize_from_csv(csv), expected, "for {csv:?}");
    }
}

#[test]
fn field_is_parsed_within_its_bounds() {
    let bytes = b"12,345,x";
    assert_eq!(parse_field(bytes, 0, 2), Some(12));
    assert_eq!(parse_field(bytes, 3, 6), Some(345));
    assert_eq!(parse_field(bytes, 3, 5), Some(34));
    assert_eq!(parse_field(bytes, 7, 8), None);
    assert_eq!(parse_field(bytes, 2, 2), None);
}

#[test]
fn bounties_are_written_as_csv() {
    assert_eq!(serialize_as_csv(&vec![]), "");
    assert_eq!(serialize_as_csv(&vec![5]), "5");
    assert_eq!(serialize_as_csv(&vec![1, 20, 300]), "1,20,300");
    assert_eq!(deserialize_from_csv(&serialize_as_csv(&vec![1, 20, 300])), vec![1, 20, 300]);
}

#[test]
fn numbers_in_big_endian() {
    assert_eq!(to_be_bytes(0x0102_0304, 4), vec![1, 2, 3, 4]);
    assert_eq!(to_be_bytes(5, 8), vec![0, 0, 0, 0, 0, 0, 0, 5]);
    assert_eq!(to_be_bytes(0x0102, 1), vec![2]);
    assert_eq!(to_be_bytes(7, 0), Vec::<u8>::new());
}

#[test]
fn payload_holds_what_the_wallet_expects() {
    let genesis = vec![0x91u8; 32];
    let text = create_payload_as_string(
        &genesis,
        1_002_000,
        26,
        &vec![0x1a, 0x04],
        7,
        "5GrwvaEF5zXb26Fz9rcQpDWS57CtERHpNehXCPcNoHGKutQY",
        &vec!["CheckNonce".to_string(), "ChargeTransactionPayment".to_string()],
    );
    let value: serde_json::Value = serde_json::from_str(&text).expect("JSON");
    let object = value.as_object().expect("an object");
    let hash = format!("0x{}", "91".repeat(32));
    assert_eq!(object.len(), 12);
    assert_eq!(object["specVersion"], "0x000f4a10");
    assert_eq!(object["transactionVersion"], "0x0000001a");
    assert_eq!(object["address"], "5GrwvaEF5zXb26Fz9rcQpDWS57CtERHpNehXCPcNoHGKutQY");
    assert_eq!(object["blockHash"], hash.as_str());
    assert_eq!(object["blockNumber"], "0x00000000");
    assert_eq!(object["era"], "0x00");
    assert_eq!(object["genesisHash"], hash.as_str());
    assert_eq!(object["method"], "0x1a04");
    assert_eq!(object["nonce"], "0x0000000000000007");
    assert_eq!(object["tip"], "0x00");
    assert_eq!(object["version"], 4);
    let extensions: Vec<&str> = object["signedExtensions"]
        .as_array()
        .expect("a list")
        .iter()
        .map(|v| v.as_str().unwrap())
        .collect();
    assert_eq!(extensions, vec!["CheckNonce", "ChargeTransactionPayment"]);
}

#[test]
fn payload_text_is_compact_json() {
    let text = create_payload_as_string(&vec![], 0, 0, &vec![], 0, "a\"b", &vec![]);
    assert!(text.starts_with("{\"address\":\"a\\\"b\","));
    assert!(text.ends_with("\"version\":4}"));
}
