use grid_agent::api::{refreshed_token, LoginResponse};
use grid_agent::node_info::{build_node_info, compose_node_id, compose_node_name, u64_to_dec};

#[test]
fn decimal_rendering_is_exact() {
    assert_eq!(u64_to_dec(0), "0");
    assert_eq!(u64_to_dec(7), "7");
    assert_eq!(u64_to_dec(10), "10");
    assert_eq!(u64_to_dec(905), "905");
    assert_eq!(u64_to_dec(u64::MAX), "18446744073709551615");
}

#[test]
fn node_id_composition() {
    assert_eq!(
        compose_node_id("myhost", 1700000000),
        "tauri-myhost-1700000000"
    );
}

#[test]
fn node_name_composition() {
    assert_eq!(compose_node_name("myhost", "linux"), "myhost-linux");
}

#[test]
fn node_info_is_built_from_sampled_facts() {
    let info = build_node_info("linux".to_string(), 8, 16384, 4096);
    assert_eq!(info.node_id, "");
    assert_eq!(info.username, "");
    assert_eq!(info.platform, "linux");
    assert_eq!(info.cpu_cores, 8);
    assert_eq!(info.memory_total, 16384);
    assert_eq!(info.memory_free, 4096);
    assert_eq!(info.compute_power, 800);
}

#[test]
fn login_token_is_kept_or_renewed() {
    let with_token = LoginResponse {
        success: true,
        token: Some("fresh".to_string()),
        user: None,
        error: None,
    };
    let without_token = LoginResponse {
        success: false,
        token: None,
        user: Some(serde_json::Value::String("u".to_string())),
        error: Some("denied".to_string()),
    };
    assert_eq!(
        refreshed_token(Some("stale".to_string()), &with_token),
        Some("fresh".to_string())
    );
    assert_eq!(
        refreshed_token(Some("stale".to_string()), &without_token),
        Some("stale".to_string())
    );
    assert_eq!(refreshed_token(None, &without_token), None);
}
