use gc_session::session::{BotConfig, InvokePayload};

#[test]
fn default_config_is_empty() {
    let cfg = BotConfig::default();
    assert_eq!(cfg.username, "");
    assert_eq!(cfg.password, "");
}

#[test]
fn config_clones_field_by_field() {
    let cfg = BotConfig { username: "salty".to_string(), password: "secret".to_string() };
    let copy = cfg.clone();
    assert_eq!(copy.username, "salty");
    assert_eq!(copy.password, "secret");
}

#[test]
fn payload_clones_verbatim() {
    let payload = InvokePayload { kind: -4, data: vec![0, 255, 17] };
    let copy = payload.clone();
    assert_eq!(copy.kind, -4);
    assert_eq!(copy.data, vec![0, 255, 17]);
    assert_eq!(payload.data, vec![0, 255, 17]);
}
