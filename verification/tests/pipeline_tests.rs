use ephemeral_oracle::blockhash_cache::BlockhashCache;
use ephemeral_oracle::codec::serialize_record;
use ephemeral_oracle::dispatcher::{record_address, update_instruction_data, ChainPusher};
use ephemeral_oracle::ingestion::{ConnectionEvent, EngineAction, IngestionEngine};
use ephemeral_oracle::price_feed::{
    initialize_price_feed, TemporalNumericValue, UpdateData,
};
use ephemeral_oracle::pyth_lazer::{
    feeds_subscription_msg, price_feed_ids, PythChainPusher, PythSymbol,
};
use ephemeral_oracle::sample::{sample, SampleError};
use solana_signer::Signer;

const PROGRAM_ID: [u8; 32] = [11u8; 32];

fn update(symbol: &str, quantized_value: u64) -> UpdateData {
    UpdateData {
        symbol: symbol.to_string(),
        temporal_numeric_value: TemporalNumericValue {
            timestamp_ns: 5,
            quantized_value,
        },
    }
}

fn symbol(id: i32, name: &str) -> PythSymbol {
    PythSymbol {
        pyth_lazer_id: id,
        name: name.to_string(),
        symbol: name.to_lowercase(),
        description: String::new(),
        asset_type: "crypto".to_string(),
        exponent: -8,
        cmc_id: None,
        interval: None,
    }
}

// Endpoint failover: with endpoints [A, B] and A always failing, the
// engine tries B at once; only after B also fails does it back off and
// restart the pass.
#[test]
fn failover_reaches_second_endpoint_without_backoff() {
    let endpoints = vec!["wss://a".to_string(), "wss://b".to_string()];
    let mut engine = IngestionEngine::new(endpoints);
    assert_eq!(engine.current, 0);
    let action = engine.on_event(ConnectionEvent::ConnectFailed);
    assert_eq!(action, EngineAction::TryConnect { endpoint: 1 });
    assert_eq!(engine.current, 1);
    let action = engine.on_event(ConnectionEvent::UpgradeCompleted);
    assert_eq!(action, EngineAction::SendSubscription);
    assert!(engine.connected);
    let action = engine.on_event(ConnectionEvent::TextFrame);
    assert_eq!(action, EngineAction::DispatchFrame);
}

#[test]
fn engine_probes_on_timeout_and_fails_over_on_close() {
    let endpoints = vec!["wss://a".to_string(), "wss://b".to_string()];
    let mut engine = IngestionEngine::new(endpoints);
    assert_eq!(engine.on_event(ConnectionEvent::ReadTimedOut), EngineAction::SendProbe);
    assert_eq!(engine.on_event(ConnectionEvent::RemotePing), EngineAction::SendPong);
    assert_eq!(
        engine.on_event(ConnectionEvent::CloseFrame),
        EngineAction::TryConnect { endpoint: 1 }
    );
    // the pass ends when the last endpoint fails too
    assert_eq!(
        engine.on_event(ConnectionEvent::TransportFailed),
        EngineAction::BackoffThenRetry { endpoint: 0 }
    );
    assert!(!engine.connected);
}

// Cache freshness: a read is just the stored token; a failed refresh keeps
// the stale token, a successful one replaces it.
#[test]
fn blockhash_cache_reads_never_fail() {
    let mut cache = BlockhashCache::new([1u8; 32]);
    assert_eq!(cache.get_blockhash(), [1u8; 32]);
    cache.refresh(None);
    assert_eq!(cache.get_blockhash(), [1u8; 32]);
    cache.refresh(Some([2u8; 32]));
    assert_eq!(cache.get_blockhash(), [2u8; 32]);
    cache.refresh(None);
    assert_eq!(cache.get_blockhash(), [2u8; 32]);
}

#[test]
fn record_addresses_are_deterministic_per_symbol() {
    let a1 = record_address("pyth-lazer", "SOLUSD", &PROGRAM_ID).unwrap();
    let a2 = record_address("pyth-lazer", "SOLUSD", &PROGRAM_ID).unwrap();
    let b = record_address("pyth-lazer", "BTCUSD", &PROGRAM_ID).unwrap();
    assert_eq!(a1, a2);
    assert_ne!(a1, b);
}

#[test]
fn instruction_data_is_wire_exact() {
    let data = update_instruction_data("pyth-lazer", &update("SOLUSD", 15_230_000_000));
    let mut expected: Vec<u8> = vec![28, 9, 93, 150, 86, 153, 188, 115];
    expected.extend_from_slice(&10u32.to_le_bytes());
    expected.extend_from_slice(b"pyth-lazer");
    expected.extend_from_slice(&6u32.to_le_bytes());
    expected.extend_from_slice(b"SOLUSD");
    expected.extend_from_slice(&5u64.to_le_bytes());
    expected.extend_from_slice(&15_230_000_000u64.to_le_bytes());
    assert_eq!(data, expected);
}

#[test]
fn pusher_builds_one_signed_transaction() {
    let pusher = ChainPusher::new([7u8; 32], "pyth-lazer".to_string(), PROGRAM_ID);
    let updates = vec![update("SOLUSD", 1), update("BTCUSD", 2)];
    let tx = pusher.build_price_updates_transaction(&updates, &[9u8; 32]);
    assert!(tx.is_some());
    // the same batch, identity and token yield the same transaction
    let again = pusher.build_price_updates_transaction(&updates, &[9u8; 32]);
    assert_eq!(tx, again);
}

#[test]
fn pusher_keeps_its_signing_identity() {
    let secret = [7u8; 32];
    let pusher = ChainPusher::new(secret, "pyth-lazer".to_string(), PROGRAM_ID);
    let expected = solana_keypair::Keypair::new_from_array(secret).pubkey().to_bytes();
    assert_eq!(pusher.payer_secret, secret);
    assert_eq!(pusher.payer_key, expected);
}

#[test]
fn pyth_pusher_uses_cached_blockhash() {
    let pusher = PythChainPusher::new([7u8; 32], PROGRAM_ID, [9u8; 32]);
    assert_eq!(pusher.blockhash_cache.blockhash, [9u8; 32]);
    assert_eq!(pusher.pusher.provider, "pyth-lazer");
    let tx = pusher.build_price_updates_transaction(&vec![update("SOLUSD", 1)]);
    assert!(tx.is_some());
}

#[test]
fn feed_ids_resolve_in_request_order() {
    let symbols = vec![symbol(6, "SOLUSD"), symbol(1, "BTCUSD"), symbol(6000, "SOLUSD")];
    let feeds = vec!["BTCUSD".to_string(), "DOGEUSD".to_string(), "SOLUSD".to_string()];
    // unknown names are skipped, the first directory match wins
    assert_eq!(price_feed_ids(&feeds, &symbols), vec![1, 6]);
    assert_eq!(price_feed_ids(&Vec::new(), &symbols), Vec::<i32>::new());
}

#[test]
fn subscription_message_is_text_exact() {
    let symbols = vec![symbol(6, "SOLUSD"), symbol(1, "BTCUSD"), symbol(-3, "ODDUSD")];
    let feeds = vec![
        "SOLUSD".to_string(),
        "BTCUSD".to_string(),
        "ODDUSD".to_string(),
    ];
    let msg = feeds_subscription_msg(&feeds, "fixed_rate@50ms", &symbols);
    assert_eq!(
        msg,
        "{\"type\":\"subscribe\",\"subscriptionId\":0,\"priceFeedIds\":[6,1,-3],\
         \"properties\":[\"price\"],\"chains\":[\"solana\"],\"channel\":\"fixed_rate@50ms\"}"
    );
}

#[test]
fn sample_reads_fresh_price() {
    let record = initialize_price_feed(&[7u8; 32], &[3u8; 32], -8, 1_700_000_000);
    let bytes = serialize_record(&record);
    let message = sample(&bytes, &[3u8; 32], 1_700_000_030, 60).unwrap();
    assert_eq!(message, record.price_message);
}

#[test]
fn sample_rejects_bad_inputs() {
    let record = initialize_price_feed(&[7u8; 32], &[3u8; 32], -8, 1_700_000_000);
    let bytes = serialize_record(&record);
    assert_eq!(
        sample(&bytes[..100], &[3u8; 32], 1_700_000_030, 60),
        Err(SampleError::MalformedRecord)
    );
    assert_eq!(
        sample(&bytes, &[4u8; 32], 1_700_000_030, 60),
        Err(SampleError::WrongFeed)
    );
    assert_eq!(
        sample(&bytes, &[3u8; 32], 1_700_000_100, 60),
        Err(SampleError::PriceTooOld)
    );
}

#[test]
fn single_endpoint_backs_off_immediately() {
    let mut engine = IngestionEngine::new(vec!["wss://only".to_string()]);
    assert_eq!(
        engine.on_event(ConnectionEvent::ConnectFailed),
        EngineAction::BackoffThenRetry { endpoint: 0 }
    );
    assert_eq!(engine.current, 0);
}

#[test]
fn empty_update_batch_still_builds_a_transaction() {
    let pusher = ChainPusher::new([7u8; 32], "pyth-lazer".to_string(), PROGRAM_ID);
    let tx = pusher.build_price_updates_transaction(&Vec::new(), &[9u8; 32]);
    assert!(tx.is_some());
}

#[test]
fn builder_makes_one_entry_per_update() {
    let pusher = ChainPusher::new([7u8; 32], "pyth-lazer".to_string(), PROGRAM_ID);
    let updates = vec![update("SOLUSD", 1), update("BTCUSD", 2), update("ETHUSD", 3)];
    let entries = pusher.build_update_entries(&updates).unwrap();
    assert_eq!(entries.len(), 3);
    for (i, entry) in entries.iter().enumerate() {
        let expected_address =
            record_address("pyth-lazer", &updates[i].symbol, &PROGRAM_ID).unwrap();
        let expected_data = update_instruction_data("pyth-lazer", &updates[i]);
        assert_eq!(entry.0, expected_address);
        assert_eq!(entry.1, expected_data);
    }
}

// A symbol longer than a derivation seed may be (32 bytes) has no record
// address, so no transaction is built for a batch containing it.
#[test]
fn underivable_symbol_yields_no_transaction() {
    let long_symbol = "X".repeat(40);
    assert!(record_address("pyth-lazer", &long_symbol, &PROGRAM_ID).is_none());
    let pusher = ChainPusher::new([7u8; 32], "pyth-lazer".to_string(), PROGRAM_ID);
    let updates = vec![update("SOLUSD", 1), update(&long_symbol, 2)];
    assert!(pusher.build_update_entries(&updates).is_none());
    assert!(pusher.build_price_updates_transaction(&updates, &[9u8; 32]).is_none());
}
