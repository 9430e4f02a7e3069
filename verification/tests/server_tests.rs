use tnotes::server::{parse_port, ConfigVars, PendingPairing, ServerConfig, WsTicket};

fn vars() -> ConfigVars {
    ConfigVars {
        host: None,
        legacy_host: None,
        port: None,
        legacy_port: None,
        data_dir: None,
        legacy_data_dir: None,
        server_url: None,
        legacy_server_url: None,
    }
}

#[test]
fn defaults_when_nothing_is_set() {
    let c = ServerConfig::from_vars(vars());
    assert_eq!(c.host, "0.0.0.0");
    assert_eq!(c.port, 8787);
    assert_eq!(c.data_dir, "./data");
    assert_eq!(c.server_url, "http://localhost:8787");
}

#[test]
fn current_names_win_over_legacy_names() {
    let c = ServerConfig::from_vars(ConfigVars {
        host: Some("127.0.0.1".into()),
        legacy_host: Some("10.0.0.1".into()),
        port: None,
        legacy_port: Some("9000".into()),
        data_dir: None,
        legacy_data_dir: Some("/var/notat".into()),
        server_url: Some("https://notes.example".into()),
        legacy_server_url: Some("http://old".into()),
    });
    assert_eq!(c.host, "127.0.0.1");
    assert_eq!(c.port, 9000);
    assert_eq!(c.data_dir, "/var/notat");
    assert_eq!(c.server_url, "https://notes.example");
}

#[test]
fn invalid_port_falls_back_to_default_not_to_legacy() {
    let c = ServerConfig::from_vars(ConfigVars { port: Some("http".into()), legacy_port: Some("9000".into()), ..vars() });
    assert_eq!(c.port, 8787);
    let c = ServerConfig::from_vars(ConfigVars { port: Some("4000".into()), ..vars() });
    assert_eq!(c.server_url, "http://localhost:4000");
}

#[test]
fn ports_parse_like_u16() {
    for s in ["0", "8787", "+80", "65535", "00080", "65536", "", "+", "-1", " 80", "8a", "99999999999"] {
        assert_eq!(parse_port(s), s.parse::<u16>().ok(), "input {s:?}");
    }
}

#[test]
fn records_hold_their_fields() {
    let p = PendingPairing {
        code: "123456".into(),
        token: "SECRET-REDACTED".into(),
        user_id: "u1".into(),
        username: "alice".into(),
        device_id: "pixel_phone".into(),
        expires_at: 10,
        claimed: false,
        claimed_device_name: None,
    };
    assert!(!p.claimed);
    let t = WsTicket { user_id: "u1".into(), device_id: "d1".into(), expires_at: 5 };
    assert_eq!(t.expires_at, 5);
}
