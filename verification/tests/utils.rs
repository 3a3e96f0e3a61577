use claimeer::runtimes::support::SupportedRelayRuntime;
use claimeer::runtimes::utils::{
    amount_human, compact, decimal, get_child_bounty_id_from_storage_key, grouped,
    insert_ascending, pow10_u128, str, try_str,
};

#[test]
fn amount_human_one_and_a_half() {
    assert_eq!(amount_human(15_000_000_000, 10), "1.50");
}

#[test]
fn amount_human_groups_thousands() {
    assert_eq!(amount_human(12_345_678_900_000_000, 10), "1,234,567.89");
}

#[test]
fn amount_human_truncates_and_drops_leading_zero_of_the_fraction() {
    // 1.059 units: the fraction is cut to 05, shown as 5.
    assert_eq!(amount_human(10_590_000_000, 10), "1.5");
    assert_eq!(amount_human(0, 10), "0.0");
    assert_eq!(amount_human(9_999_999_999, 10), "0.99");
}

#[test]
fn amount_human_with_twelve_and_two_decimals() {
    assert_eq!(amount_human(2_500_000_000_000, 12), "2.50");
    assert_eq!(amount_human(123_456, 2), "1,234.56");
}

#[test]
fn amount_human_of_the_largest_value() {
    assert_eq!(
        amount_human(u128::MAX, 10),
        "34,028,236,692,093,846,346,337,460,743.17"
    );
}

#[test]
fn grouped_puts_a_comma_every_three_digits() {
    assert_eq!(grouped(0), "0");
    assert_eq!(grouped(999), "999");
    assert_eq!(grouped(1_000), "1,000");
    assert_eq!(grouped(1_000_005), "1,000,005");
    assert_eq!(grouped(21_345_678), "21,345,678");
}

#[test]
fn decimal_writes_plain_digits() {
    assert_eq!(decimal(0), "0");
    assert_eq!(decimal(7), "7");
    assert_eq!(decimal(1_000_005), "1000005");
    assert_eq!(decimal(u128::MAX), u128::MAX.to_string());
}

#[test]
fn pow10_of_small_and_largest_exponent() {
    assert_eq!(pow10_u128(0), 1);
    assert_eq!(pow10_u128(10), 10_000_000_000);
    assert_eq!(pow10_u128(38), 10u128.pow(38));
}

#[test]
fn compact_keeps_four_characters_on_each_side() {
    let s = "5GrwvaEF5zXb26Fz9rcQpDWS57CtERHpNehXCPcNoHGKutQY";
    assert_eq!(compact(s), "5Grw...utQY");
    assert_eq!(compact(s).len(), 11);
}

#[test]
fn compact_of_eight_characters_keeps_them_all() {
    assert_eq!(compact("abcdwxyz"), "abcd...wxyz");
}

#[test]
fn storage_key_ends_with_little_endian_id() {
    let key = vec![0xAA, 0xBB, 0x2A, 0x00, 0x00, 0x00];
    assert_eq!(get_child_bounty_id_from_storage_key(key), 42);
}

#[test]
fn storage_key_id_uses_all_four_bytes() {
    assert_eq!(get_child_bounty_id_from_storage_key(vec![0x01, 0x02, 0x03, 0x04]), 0x0403_0201);
    assert_eq!(get_child_bounty_id_from_storage_key(vec![9, 0xFF, 0xFF, 0xFF, 0xFF]), u32::MAX);
}

#[test]
fn str_decodes_utf8() {
    assert_eq!(str(b"Bounty for docs".to_vec()), "Bounty for docs");
    assert_eq!(str("größe".as_bytes().to_vec()), "größe");
}

#[test]
fn try_str_refuses_what_is_not_utf8() {
    assert_eq!(try_str(vec![0x66, 0x6F, 0x6F]), Some("foo".to_string()));
    assert_eq!(try_str(vec![0xFF, 0xFE]), None);
}

#[test]
fn insert_ascending_keeps_order_and_skips_duplicates() {
    let mut list = vec![2, 5, 9];
    insert_ascending(&mut list, 7);
    insert_ascending(&mut list, 1);
    insert_ascending(&mut list, 5);
    insert_ascending(&mut list, 12);
    assert_eq!(list, vec![1, 2, 5, 7, 9, 12]);
}

#[test]
fn runtime_constants() {
    assert_eq!(SupportedRelayRuntime::Polkadot.unit(), "DOT");
    assert_eq!(SupportedRelayRuntime::Kusama.unit(), "KSM");
    assert_eq!(SupportedRelayRuntime::Paseo.unit(), "PAS");
    assert_eq!(SupportedRelayRuntime::Polkadot.decimals(), 10);
    assert_eq!(SupportedRelayRuntime::Kusama.decimals(), 12);
    assert_eq!(SupportedRelayRuntime::Paseo.decimals(), 10);
    assert_eq!(SupportedRelayRuntime::Kusama._chain_prefix(), 2);
    assert_eq!(SupportedRelayRuntime::Polkadot.class(), "polkadot");
    assert_eq!(SupportedRelayRuntime::Kusama.to_string(), "Kusama");
    assert_eq!(
        SupportedRelayRuntime::Kusama.default_rpc_url(),
        "wss://rpc.ibp.network:443/kusama"
    );
    assert_eq!(
        SupportedRelayRuntime::Paseo.default_people_rpc_url(),
        "wss://sys.ibp.network:443/people-paseo"
    );
    assert_eq!(
        SupportedRelayRuntime::Polkadot.default_asset_hub_rpc_url(),
        "wss://sys.ibp.network:443/asset-hub-polkadot"
    );
    assert_eq!(SupportedRelayRuntime::default(), SupportedRelayRuntime::Polkadot);
}

#[test]
fn runtime_from_name_and_prefix() {
    assert_eq!(SupportedRelayRuntime::from_name("KSM"), Some(SupportedRelayRuntime::Kusama));
    assert_eq!(SupportedRelayRuntime::from_name("paseo"), Some(SupportedRelayRuntime::Paseo));
    assert_eq!(SupportedRelayRuntime::from_name("Polkadot"), Some(SupportedRelayRuntime::Polkadot));
    assert_eq!(SupportedRelayRuntime::from_name("westend"), None);
    assert_eq!(SupportedRelayRuntime::from_chain_prefix(0), Some(SupportedRelayRuntime::Polkadot));
    assert_eq!(SupportedRelayRuntime::from_chain_prefix(2), Some(SupportedRelayRuntime::Kusama));
    assert_eq!(SupportedRelayRuntime::from_chain_prefix(42), None);
}
