use ephemeral_oracle::args::{
    channel_of_name, get_auth_header, get_channel, get_price_feeds, get_private_key,
    get_solana_cluster, get_ws_url, Args, ChannelType,
};

#[test]
fn ws_url_prefers_environment_then_cli_then_default() {
    assert_eq!(
        get_ws_url(Some("wss://env".to_string()), Some("wss://cli".to_string())),
        "wss://env"
    );
    assert_eq!(get_ws_url(None, Some("wss://cli".to_string())), "wss://cli");
    assert_eq!(get_ws_url(None, None), "ws://localhost:8765");
}

#[test]
fn auth_header_prefers_environment() {
    assert_eq!(
        get_auth_header(Some("env-token".to_string()), Some("cli-token".to_string())),
        "env-token"
    );
    assert_eq!(get_auth_header(None, Some("cli-token".to_string())), "cli-token");
}

#[test]
fn cluster_prefers_environment_then_cli_then_default() {
    assert_eq!(
        get_solana_cluster(Some("http://env".to_string()), None),
        "http://env"
    );
    assert_eq!(
        get_solana_cluster(None, Some("http://cli".to_string())),
        "http://cli"
    );
    assert_eq!(get_solana_cluster(None, None), "https://devnet.magicblock.app/");
}

#[test]
fn private_key_falls_back_to_generated() {
    assert_eq!(
        get_private_key(Some("env-key".to_string()), None, "gen".to_string()),
        "env-key"
    );
    assert_eq!(
        get_private_key(None, Some("cli-key".to_string()), "gen".to_string()),
        "cli-key"
    );
    assert_eq!(get_private_key(None, None, "gen".to_string()), "gen");
}

#[test]
fn channel_resolution_ignores_ascii_case() {
    assert_eq!(get_channel(Some("REAL_TIME".to_string()), None), "real_time");
    assert_eq!(
        get_channel(Some("Fixed_Rate@200MS".to_string()), Some(ChannelType::RealTime)),
        "fixed_rate@200ms"
    );
    assert_eq!(get_channel(None, Some(ChannelType::FixedRate1ms)), "fixed_rate@1ms");
    assert_eq!(get_channel(None, None), "fixed_rate@50ms");
}

#[test]
fn channel_names_parse_and_print() {
    assert_eq!(channel_of_name("real_time"), Some(ChannelType::RealTime));
    assert_eq!(channel_of_name("fixed_rate@1ms"), Some(ChannelType::FixedRate1ms));
    assert_eq!(channel_of_name("fixed_rate@50ms"), Some(ChannelType::FixedRate50ms));
    assert_eq!(channel_of_name("fixed_rate@200ms"), Some(ChannelType::FixedRate200ms));
    assert_eq!(channel_of_name("fixed_rate@5ms"), None);
    assert_eq!(channel_of_name(""), None);
    assert_eq!(ChannelType::FixedRate50ms.channel_name(), "fixed_rate@50ms");
}

#[test]
fn price_feeds_split_and_trim() {
    let feeds = get_price_feeds(Some("BTCUSD, ETHUSD ,  SOLUSD".to_string()), None);
    assert_eq!(feeds, vec!["BTCUSD", "ETHUSD", "SOLUSD"]);
}

#[test]
fn price_feeds_keep_empty_entries_and_defaults() {
    assert_eq!(get_price_feeds(None, None), vec!["SOLUSD"]);
    assert_eq!(
        get_price_feeds(None, Some("a,,b".to_string())),
        vec!["a", "", "b"]
    );
    assert_eq!(get_price_feeds(Some("  ".to_string()), None), vec![""]);
}

#[test]
fn args_carry_optional_values() {
    let args = Args {
        private_key: None,
        auth_header: Some("token".to_string()),
        ws_url: None,
        cluster: None,
        price_feeds: Some("SOLUSD".to_string()),
        channel: Some(ChannelType::RealTime),
    };
    assert!(args.private_key.is_none());
    assert_eq!(args.auth_header.as_deref(), Some("token"));
    assert!(matches!(args.channel, Some(ChannelType::RealTime)));
}
