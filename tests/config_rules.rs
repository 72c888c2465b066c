use stock_alert::config::{
    Config, ConfigError, HomeBoxConfig, HomeBoxItemConfig, MatrixConfig, MatrixMessageConfig,
};

fn message(plain: &str, html: &str) -> MatrixMessageConfig {
    MatrixMessageConfig { plain: plain.to_string(), html: html.to_string() }
}

fn matrix() -> MatrixConfig {
    MatrixConfig {
        user: "@bot:example.com".to_string(),
        password: "secret".to_string(),
        room_id: "!room:example.com".to_string(),
        messages: vec![message("p", "h")],
    }
}

fn homebox() -> HomeBoxConfig {
    HomeBoxConfig {
        base_url: "https://inv.example.com".to_string(),
        username: "foo".to_string(),
        password: "baz".to_string(),
        items: vec![HomeBoxItemConfig { asset_id: "000-001".to_string(), threshold: 5 }],
    }
}

#[test]
fn valid_config_passes() {
    let cfg = Config { matrix: matrix(), homebox: homebox() };
    assert_eq!(cfg.validate(), Ok(()));
}

#[test]
fn matrix_fields_are_checked_in_order() {
    let mut m = matrix();
    m.user = String::new();
    m.password = String::new();
    assert_eq!(m.validate(), Err(ConfigError::EmptyMatrixUser));
    let mut m = matrix();
    m.password = String::new();
    assert_eq!(m.validate(), Err(ConfigError::EmptyMatrixPassword));
    let mut m = matrix();
    m.room_id = String::new();
    assert_eq!(m.validate(), Err(ConfigError::EmptyMatrixRoomId));
    let mut m = matrix();
    m.messages = Vec::new();
    assert_eq!(m.validate(), Err(ConfigError::NoMatrixMessages));
}

#[test]
fn first_defective_template_decides() {
    let mut m = matrix();
    m.messages = vec![message("a", "b"), message("a", ""), message("", "b")];
    assert_eq!(m.validate(), Err(ConfigError::EmptyMessageHtml));
    m.messages = vec![message("", "b"), message("a", "")];
    assert_eq!(m.validate(), Err(ConfigError::EmptyMessagePlain));
}

#[test]
fn homebox_fields_are_checked_in_order() {
    let mut h = homebox();
    h.base_url = String::new();
    assert_eq!(h.validate(), Err(ConfigError::EmptyHomeBoxBaseUrl));
    let mut h = homebox();
    h.username = String::new();
    assert_eq!(h.validate(), Err(ConfigError::EmptyHomeBoxUsername));
    let mut h = homebox();
    h.password = String::new();
    assert_eq!(h.validate(), Err(ConfigError::EmptyHomeBoxPassword));
    assert_eq!(homebox().validate(), Ok(()));
}

#[test]
fn matrix_defects_come_before_homebox_defects() {
    let mut m = matrix();
    m.room_id = String::new();
    let mut h = homebox();
    h.username = String::new();
    let cfg = Config { matrix: m, homebox: h };
    assert_eq!(cfg.validate(), Err(ConfigError::EmptyMatrixRoomId));
    let mut h = homebox();
    h.password = String::new();
    let cfg = Config { matrix: matrix(), homebox: h };
    assert_eq!(cfg.validate(), Err(ConfigError::EmptyHomeBoxPassword));
}

#[test]
fn default_config_values() {
    let cfg = Config::default();
    assert_eq!(cfg.matrix.user, "@bot:example.com");
    assert_eq!(cfg.matrix.password, "");
    assert_eq!(cfg.matrix.messages.len(), 1);
    assert!(cfg.matrix.messages[0].plain.starts_with("\u{26a0}\u{fe0f} Low stock: {name}"));
    assert_eq!(cfg.homebox.base_url, "https://demo.homebox.software");
    assert_eq!(cfg.homebox.items[0].asset_id, "000-001");
    assert_eq!(cfg.homebox.items[0].threshold, 5);
    assert_eq!(cfg.validate(), Err(ConfigError::EmptyMatrixPassword));
}

#[test]
fn error_messages_describe_the_field() {
    assert_eq!(ConfigError::EmptyMatrixUser.message(), "matrix user must not be empty");
    assert_eq!(ConfigError::EmptyHomeBoxBaseUrl.message(), "homebox base url must not be empty");
}
