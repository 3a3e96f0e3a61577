use claimeer::chains::{
    balance_from, batch_calls, child_bounty_from, create_api_clients, on_tx_status,
    on_tx_stream_end, pending_id, read_signature, ChildBountyStatus, ClaimCall, ConnectionPlan,
    SignatureScheme, StoredChildBounty, TxEvent, TxStatus, Watch,
};
use claimeer::errors::ClaimitError;
use claimeer::people::{parse_identity_data, IdentityData, Lookup, Resolved, Resolver, MAX_DEPTH};
use claimeer::runtimes::support::SupportedRelayRuntime;
use claimeer::types::accounts::{AccountId, Balance};
use claimeer::types::child_bounties::Status;

fn account(byte: u8) -> AccountId {
    AccountId([byte; 32])
}

fn pending(value: u128) -> StoredChildBounty {
    StoredChildBounty {
        parent_bounty: 7,
        value,
        status: ChildBountyStatus::PendingPayout {
            curator: account(1),
            beneficiary: account(2),
            unlock_at: 500,
        },
    }
}

fn other(message: &str) -> ClaimitError {
    ClaimitError::Other(message.to_string())
}

#[test]
fn pending_id_is_read_from_the_key_of_a_pending_payout() {
    let key = vec![0xAB, 0xCD, 0x2A, 0x00, 0x00, 0x00];
    assert_eq!(pending_id(&key, &pending(1)), Some(42));
    assert_eq!(pending_id(&vec![0x2A, 0, 0], &pending(1)), None);
    for status in [ChildBountyStatus::Added, ChildBountyStatus::CuratorProposed, ChildBountyStatus::Active] {
        let stored = StoredChildBounty { parent_bounty: 7, value: 1, status };
        assert_eq!(pending_id(&key, &stored), None);
    }
}

#[test]
fn child_bounty_is_made_of_a_pending_payout() {
    let made = child_bounty_from(42, pending(9), Some(b"docs".to_vec()), Some("bob".to_string()))
        .expect("no error")
        .expect("a bounty");
    assert_eq!(made.id, 42);
    assert_eq!(made.parent_id, 7);
    assert_eq!(made.description, "docs");
    assert_eq!(made.value, 9);
    assert_eq!(made.status, Status::Pending);
    assert_eq!(made.beneficiary, account(2));
    assert_eq!(made.beneficiary_identity, Some("bob".to_string()));
    assert_eq!(made.unlock_at, 500);
}

#[test]
fn child_bounty_without_description_has_an_empty_one() {
    let made = child_bounty_from(1, pending(9), None, None).unwrap().unwrap();
    assert_eq!(made.description, "");
    assert_eq!(made.beneficiary_identity, None);
}

#[test]
fn child_bounty_that_is_not_pending_is_passed_over() {
    let stored = StoredChildBounty { parent_bounty: 7, value: 1, status: ChildBountyStatus::Active };
    assert_eq!(child_bounty_from(1, stored, Some(vec![0xFF]), None), Ok(None));
}

#[test]
fn child_bounty_with_a_broken_description_is_an_error() {
    assert_eq!(child_bounty_from(1, pending(9), Some(vec![0xFF]), None), Err(other("Data not utf-8")));
}

#[test]
fn balance_from_what_is_stored() {
    assert_eq!(balance_from(Some((5, 6))), Ok(Balance { free: 5, reserved: 6 }));
    assert_eq!(balance_from(None), Err(other("balance could not be retrieved")));
}

#[test]
fn batch_holds_one_claim_for_each_pair() {
    let ids = vec![(7, 42), (8, 43)];
    assert_eq!(
        batch_calls(SupportedRelayRuntime::Polkadot, &ids),
        vec![
            ClaimCall::ClaimChildBounty { parent_bounty_id: 7, child_bounty_id: 42 },
            ClaimCall::ClaimChildBounty { parent_bounty_id: 8, child_bounty_id: 43 },
        ]
    );
    assert_eq!(
        batch_calls(SupportedRelayRuntime::Kusama, &vec![(1, 2)]),
        vec![ClaimCall::ClaimChildBounty { parent_bounty_id: 1, child_bounty_id: 2 }]
    );
    assert!(batch_calls(SupportedRelayRuntime::Polkadot, &vec![]).is_empty());
}

#[test]
fn batch_on_the_test_network_holds_remarks() {
    assert_eq!(
        batch_calls(SupportedRelayRuntime::Paseo, &vec![(7, 42), (8, 43)]),
        vec![
            ClaimCall::RemarkWithEvent(b"test".to_vec()),
            ClaimCall::RemarkWithEvent(b"test".to_vec()),
        ]
    );
}

#[test]
fn signature_is_read_by_its_scheme() {
    let mut sr = vec![1u8];
    sr.extend([7u8; 64]);
    assert_eq!(read_signature(&sr), Ok((SignatureScheme::Sr25519, vec![7u8; 64])));
    let mut ed = vec![0u8];
    ed.extend([8u8; 64]);
    assert_eq!(read_signature(&ed), Ok((SignatureScheme::Ed25519, vec![8u8; 64])));
    let mut ecdsa = vec![2u8];
    ecdsa.extend([9u8; 65]);
    assert_eq!(read_signature(&ecdsa), Ok((SignatureScheme::Ecdsa, vec![9u8; 65])));
}

#[test]
fn bytes_that_hold_no_signature_are_an_error() {
    assert_eq!(read_signature(&vec![]), Err(other("MultiSignature decoding failed")));
    assert_eq!(read_signature(&vec![9, 9]), Err(other("MultiSignature decoding failed")));
    let mut unknown = vec![3u8];
    unknown.extend([7u8; 64]);
    assert_eq!(read_signature(&unknown), Err(other("MultiSignature decoding failed")));
}

#[test]
fn finalized_block_with_success_ends_with_the_claimed_ids() {
    let events = vec![
        TxEvent::Claimed(42),
        TxEvent::Other,
        TxEvent::Claimed(43),
        TxEvent::BatchCompleted,
        TxEvent::ExtrinsicSuccess,
        TxEvent::Claimed(44),
    ];
    assert_eq!(
        on_tx_status(TxStatus::InFinalizedBlock(events), 10, "0xabc"),
        Watch::Done(Ok(vec![42, 43]))
    );
    let remarks = vec![TxEvent::Remarked, TxEvent::BatchCompletedWithErrors, TxEvent::ExtrinsicSuccess];
    assert_eq!(on_tx_status(TxStatus::InFinalizedBlock(remarks), 10, "0xabc"), Watch::Done(Ok(vec![])));
}

#[test]
fn finalized_block_with_failure_names_block_and_transaction() {
    let events = vec![TxEvent::Claimed(42), TxEvent::ExtrinsicFailed, TxEvent::ExtrinsicSuccess];
    assert_eq!(
        on_tx_status(TxStatus::InFinalizedBlock(events), 1234, "0xabc"),
        Watch::Done(Err(other("ExtrinsicFailed at block 1234 extrinsic 0xabc")))
    );
}

#[test]
fn finalized_block_that_tells_nothing_is_an_error() {
    assert_eq!(
        on_tx_status(TxStatus::InFinalizedBlock(vec![TxEvent::Claimed(1)]), 1, "0x"),
        Watch::Done(Err(other("An unexpected error occurred")))
    );
    assert_eq!(
        on_tx_status(TxStatus::InFinalizedBlock(vec![]), 1, "0x"),
        Watch::Done(Err(other("An unexpected error occurred")))
    );
}

#[test]
fn terminal_reports_end_the_watch_with_their_message() {
    assert_eq!(on_tx_status(TxStatus::Error("e".into()), 1, ""), Watch::Done(Err(other("e"))));
    assert_eq!(on_tx_status(TxStatus::Invalid("i".into()), 1, ""), Watch::Done(Err(other("i"))));
    assert_eq!(on_tx_status(TxStatus::Dropped("d".into()), 1, ""), Watch::Done(Err(other("d"))));
    assert_eq!(on_tx_status(TxStatus::Pending, 1, ""), Watch::Continue);
    assert_eq!(on_tx_stream_end(), other("transaction status not available"));
}

#[test]
fn clients_connect_as_asked() {
    assert_eq!(
        create_api_clients(SupportedRelayRuntime::Kusama, true),
        ConnectionPlan::LightClient(SupportedRelayRuntime::Kusama)
    );
    assert_eq!(
        create_api_clients(SupportedRelayRuntime::Kusama, false),
        ConnectionPlan::Rpc(
            "wss://rpc.ibp.network:443/kusama",
            "wss://sys.ibp.network:443/people-kusama"
        )
    );
}

#[test]
fn errors_say_their_kind() {
    assert_eq!(other("x").to_string(), "Other error: x");
    assert_eq!(ClaimitError::SubxtError("rpc".into()).to_string(), "Subxt error: rpc");
    assert_eq!(ClaimitError::LightClientError("lc".into()).to_string(), "LightClient error: lc");
    assert_eq!(ClaimitError::other("y"), other("y"));
}

#[test]
fn identity_data_is_read_as_text() {
    assert_eq!(parse_identity_data(IdentityData::Raw(b"Alice".to_vec())), Ok("Alice".to_string()));
    assert_eq!(parse_identity_data(IdentityData::Raw(vec![])), Ok(String::new()));
    assert_eq!(parse_identity_data(IdentityData::Empty), Ok("???".to_string()));
    assert_eq!(parse_identity_data(IdentityData::Hashed), Ok("???".to_string()));
    assert_eq!(parse_identity_data(IdentityData::Raw(vec![0xC0])), Err(other("Data not utf-8")));
}

#[test]
fn account_with_an_identity_resolves_at_once() {
    let (resolver, lookup) = Resolver::start(account(1));
    assert_eq!(lookup, Lookup::IdentityOf(account(1)));
    assert_eq!(
        resolver.on_identity(Some(IdentityData::Raw(b"Alice".to_vec()))),
        Ok(Resolved::Done(Some("Alice".to_string())))
    );
}

#[test]
fn sub_account_resolves_through_its_parent() {
    let (resolver, _) = Resolver::start(account(1));
    let step = resolver.on_identity(None).unwrap();
    let Resolved::Ask(resolver, lookup) = step else { panic!("more is to be read") };
    assert_eq!(lookup, Lookup::SuperOf(account(1)));
    let step = resolver.on_super(Some((account(2), IdentityData::Raw(b"cold".to_vec())))).unwrap();
    let Resolved::Ask(resolver, lookup) = step else { panic!("more is to be read") };
    assert_eq!(lookup, Lookup::IdentityOf(account(2)));
    assert_eq!(resolver.depth, 1);
    assert_eq!(
        resolver.on_identity(Some(IdentityData::Raw(b"Alice".to_vec()))),
        Ok(Resolved::Done(Some("Alice/cold".to_string())))
    );
}

#[test]
fn account_without_identity_or_parent_has_no_name() {
    let (resolver, _) = Resolver::start(account(1));
    let Resolved::Ask(resolver, _) = resolver.on_identity(None).unwrap() else { panic!() };
    assert_eq!(resolver.on_super(None), Ok(Resolved::Done(None)));
}

#[test]
fn resolver_gives_up_after_max_depth_parents() {
    let mut resolver = Resolver::start(account(0)).0;
    for depth in 0..MAX_DEPTH {
        assert_eq!(resolver.depth, depth);
        let Resolved::Ask(asked, _) = resolver.on_identity(None).unwrap() else { panic!() };
        let parent = Some((account(depth + 1), IdentityData::Raw(b"sub".to_vec())));
        let Resolved::Ask(next, _) = asked.on_super(parent).unwrap() else { panic!() };
        resolver = next;
    }
    let Resolved::Ask(asked, _) = resolver.on_identity(None).unwrap() else { panic!() };
    assert_eq!(
        asked.on_super(Some((account(9), IdentityData::Raw(b"sub".to_vec())))),
        Ok(Resolved::Done(None))
    );
}

#[test]
fn broken_identity_data_is_an_error() {
    let (resolver, _) = Resolver::start(account(1));
    assert_eq!(resolver.on_identity(Some(IdentityData::Raw(vec![0xFF]))), Err(other("Data not utf-8")));
    let (resolver, _) = Resolver::start(account(1));
    assert_eq!(
        resolver.on_super(Some((account(2), IdentityData::Raw(vec![0xFF])))),
        Err(other("Data not utf-8"))
    );
}
