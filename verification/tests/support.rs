use anchor_rust::config::{Config, EnvValues};
use anchor_rust::platform_api::{first_rpc_error, transactions_url, RpcError, RpcResponse};
use anchor_rust::text::{parse_u64, starts_with, str_eq, strip_prefix, trim_end_matches, u64_to_decimal};

fn env() -> EnvValues {
    EnvValues {
        server_addr: None,
        base_url: None,
        database_url: Some("postgres://db".to_string()),
        horizon_url: None,
        network_passphrase: None,
        distribution_seed: Some("SSEED".to_string()),
        asset_code: None,
        sep24_interactive_jwt_secret: Some("s1".to_string()),
        platform_api_base_url: None,
        callback_api_auth_secret: Some("s2".to_string()),
        platform_api_auth_secret: Some("s3".to_string()),
    }
}

#[test]
fn config_defaults() {
    let c = Config::from_values(&env()).ok().unwrap();
    assert_eq!(c.server_addr, "0.0.0.0:8080");
    assert_eq!(c.base_url, "http://localhost:8080");
    assert_eq!(c.database_url, "postgres://db");
    assert_eq!(c.horizon_url, "https://horizon-testnet.stellar.org");
    assert_eq!(c.network_passphrase, "Test SDF Network ; September 2015");
    assert_eq!(c.distribution_seed, "SSEED");
    assert_eq!(c.asset_code, "TEST");
    assert_eq!(c.sep24_interactive_jwt_secret, "s1");
    assert_eq!(c.platform_api_base_url, "http://localhost:8085");
    assert_eq!(c.callback_api_auth_secret, "s2");
    assert_eq!(c.platform_api_auth_secret, "s3");
}

#[test]
fn config_overrides() {
    let mut v = env();
    v.asset_code = Some("USDC".to_string());
    v.server_addr = Some("127.0.0.1:9000".to_string());
    let c = Config::from_values(&v).ok().unwrap();
    assert_eq!(c.asset_code, "USDC");
    assert_eq!(c.server_addr, "127.0.0.1:9000");
}

#[test]
fn config_reports_first_missing_variable() {
    let mut v = env();
    v.platform_api_auth_secret = None;
    v.distribution_seed = None;
    assert_eq!(
        Config::from_values(&v).err().unwrap(),
        "missing required environment variable: DISTRIBUTION_SEED"
    );
    let mut v = env();
    v.callback_api_auth_secret = None;
    assert_eq!(
        Config::from_values(&v).err().unwrap(),
        "missing required environment variable: SECRET_CALLBACK_API_AUTH_SECRET"
    );
    let mut v = env();
    v.database_url = None;
    assert_eq!(Config::from_values(&v).err().unwrap(), "missing required environment variable: DATABASE_URL");
}

#[test]
fn transactions_url_trims_trailing_slashes() {
    assert_eq!(transactions_url("http://p:8085", "t1"), "http://p:8085/transactions/t1");
    assert_eq!(transactions_url("http://p:8085//", "t1"), "http://p:8085/transactions/t1");
    assert_eq!(transactions_url("", "t1"), "/transactions/t1");
}

#[test]
fn first_error_of_a_batch() {
    let ok = RpcResponse { id: Some("1".to_string()), error: None };
    assert_eq!(first_rpc_error(&vec![]), None);
    assert_eq!(first_rpc_error(&vec![ok]), None);
    let batch = vec![
        RpcResponse { id: Some("1".to_string()), error: None },
        RpcResponse { id: None, error: Some(RpcError { code: -32600, message: "bad".to_string() }) },
        RpcResponse { id: None, error: Some(RpcError { code: 1, message: "later".to_string() }) },
    ];
    assert_eq!(first_rpc_error(&batch), Some((-32600, "bad".to_string())));
}

#[test]
fn text_helpers() {
    assert!(str_eq("abc", "abc"));
    assert!(!str_eq("abc", "abd"));
    assert!(starts_with("Bearer x", "Bearer "));
    assert!(!starts_with("Bear", "Bearer "));
    assert_eq!(strip_prefix("Bearer x", "Bearer ").as_deref(), Some("x"));
    assert_eq!(strip_prefix("x", "Bearer "), None);
    assert_eq!(trim_end_matches("a//", '/'), "a");
    assert_eq!(trim_end_matches("///", '/'), "");
    assert_eq!(u64_to_decimal(0), "0");
    assert_eq!(u64_to_decimal(u64::MAX), "18446744073709551615");
}

#[test]
fn parse_u64_follows_std() {
    for s in ["0", "42", "+7", "007", "18446744073709551615", "", "+", "-1", " 1", "18446744073709551616", "1a"] {
        assert_eq!(parse_u64(s), s.parse::<u64>().ok(), "input {:?}", s);
    }
}
