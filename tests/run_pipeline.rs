use stock_alert::config::{ConfigError, HomeBoxItemConfig, MatrixMessageConfig};
use stock_alert::inventory::HomeBoxItem;
use stock_alert::pipeline::{
    is_low_stock, Action, DeliveryOutcome, Phase, Pipeline, Stage, TemplateSelection,
};

fn cfg_item(asset_id: &str, threshold: i32) -> HomeBoxItemConfig {
    HomeBoxItemConfig { asset_id: asset_id.to_string(), threshold }
}

fn snapshot(name: &str, quantity: i32) -> HomeBoxItem {
    HomeBoxItem {
        asset_id: "000-001".to_string(),
        id: "id-1".to_string(),
        name: name.to_string(),
        quantity,
    }
}

fn templates() -> Vec<MatrixMessageConfig> {
    vec![
        MatrixMessageConfig { plain: "Low: {name}".to_string(), html: "<b>{name}</b>".to_string() },
        MatrixMessageConfig { plain: "{quantity}/{threshold}".to_string(), html: "h".to_string() },
    ]
}

fn logged_in(items: Vec<HomeBoxItemConfig>, selection: TemplateSelection) -> (Pipeline, Action) {
    let mut p = Pipeline::new(items, templates(), selection).unwrap();
    assert!(matches!(p.start(), Action::AuthenticateChat));
    assert!(matches!(p.on_chat_login(true), Action::AuthenticateInventory));
    assert!(matches!(p.on_inventory_login(true), Action::ResolveRoom));
    let a = p.on_room_resolved(true);
    (p, a)
}

#[test]
fn no_templates_rejected() {
    let r = Pipeline::new(vec![cfg_item("a", 1)], Vec::new(), TemplateSelection::SendAll);
    assert!(matches!(r, Err(ConfigError::NoMatrixMessages)));
}

#[test]
fn threshold_boundary() {
    assert!(is_low_stock(5, 5));
    assert!(!is_low_stock(6, 5));
    let (mut p, a) = logged_in(vec![cfg_item("a", 5), cfg_item("b", 5)], TemplateSelection::SendAll);
    assert!(matches!(a, Action::FetchItem { index: 0 }));
    assert!(matches!(p.on_lookup(Ok(snapshot("A", 5)), 0), Action::Send { index: 0, .. }));
    assert!(matches!(p.on_send(true), Action::FetchItem { index: 1 }));
    assert!(matches!(p.on_lookup(Ok(snapshot("B", 6)), 0), Action::Finish));
    assert!(matches!(p.outcomes[0], DeliveryOutcome::Delivered));
    assert!(matches!(p.outcomes[1], DeliveryOutcome::Suppressed));
    assert_eq!(p.phase, Phase::Completed);
}

#[test]
fn lookup_failure_does_not_abort_batch() {
    let (mut p, _) = logged_in(vec![cfg_item("a", 5), cfg_item("b", 5)], TemplateSelection::SendAll);
    let a = p.on_lookup(Err("not found".to_string()), 0);
    assert!(matches!(a, Action::FetchItem { index: 1 }));
    match p.on_lookup(Ok(snapshot("B", 2)), 0) {
        Action::Send { index, messages } => {
            assert_eq!(index, 1);
            assert_eq!(messages.len(), 2);
            assert_eq!(messages[0].plain, "Low: B");
            assert_eq!(messages[0].html, "<b>B</b>");
            assert_eq!(messages[1].plain, "2/5");
        }
        other => panic!("unexpected action {:?}", other),
    }
    assert!(matches!(p.on_send(true), Action::Finish));
    assert_eq!(p.outcomes.len(), 2);
    assert!(matches!(&p.outcomes[0], DeliveryOutcome::Failed(r) if r == "not found"));
    assert!(matches!(p.outcomes[1], DeliveryOutcome::Delivered));
    assert_eq!(p.phase, Phase::Completed);
}

#[test]
fn send_failure_aborts_run() {
    let items = vec![cfg_item("a", 5), cfg_item("b", 5), cfg_item("c", 5)];
    let (mut p, _) = logged_in(items, TemplateSelection::SendRandomOne);
    assert!(matches!(p.on_lookup(Ok(snapshot("A", 9)), 0), Action::FetchItem { index: 1 }));
    assert!(matches!(p.on_lookup(Ok(snapshot("B", 1)), 1), Action::Send { index: 1, .. }));
    assert!(matches!(p.on_send(false), Action::Abort { stage: Stage::Delivery }));
    assert_eq!(p.phase, Phase::Aborted(Stage::Delivery));
    assert_eq!(p.outcomes.len(), 1);
    assert!(matches!(p.outcomes[0], DeliveryOutcome::Suppressed));
}

#[test]
fn random_one_sends_the_picked_template() {
    let (mut p, _) = logged_in(vec![cfg_item("a", 5)], TemplateSelection::SendRandomOne);
    match p.on_lookup(Ok(snapshot("A", 3)), 1) {
        Action::Send { messages, .. } => {
            assert_eq!(messages.len(), 1);
            assert_eq!(messages[0].plain, "3/5");
        }
        other => panic!("unexpected action {:?}", other),
    }
}

#[test]
fn random_pick_sends_one_configured_template() {
    let (mut p, _) = logged_in(vec![cfg_item("a", 5)], TemplateSelection::SendRandomOne);
    match p.on_lookup_random(Ok(snapshot("A", 3))) {
        Action::Send { messages, .. } => {
            assert_eq!(messages.len(), 1);
            assert!(messages[0].plain == "Low: A" || messages[0].plain == "3/5");
        }
        other => panic!("unexpected action {:?}", other),
    }
}

#[test]
fn login_and_room_failures_abort() {
    let mut p = Pipeline::new(vec![cfg_item("a", 1)], templates(), TemplateSelection::SendAll).unwrap();
    assert!(matches!(p.on_chat_login(false), Action::Abort { stage: Stage::ChatLogin }));
    assert!(p.outcomes.is_empty());
    let mut p = Pipeline::new(vec![cfg_item("a", 1)], templates(), TemplateSelection::SendAll).unwrap();
    p.on_chat_login(true);
    assert!(matches!(p.on_inventory_login(false), Action::Abort { stage: Stage::InventoryLogin }));
    let mut p = Pipeline::new(vec![cfg_item("a", 1)], templates(), TemplateSelection::SendAll).unwrap();
    p.on_chat_login(true);
    p.on_inventory_login(true);
    assert!(matches!(p.on_room_resolved(false), Action::Abort { stage: Stage::RoomResolution }));
    assert_eq!(p.phase, Phase::Aborted(Stage::RoomResolution));
}

#[test]
fn empty_item_list_completes_at_once() {
    let (p, a) = logged_in(Vec::new(), TemplateSelection::SendAll);
    assert!(matches!(a, Action::Finish));
    assert_eq!(p.phase, Phase::Completed);
}
