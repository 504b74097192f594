use observability_agent::{
    dashboard, get_logs, health_check, save_config, save_entry, validate_form, Body, ConfigForm,
    Reply, ServiceConfig, Snapshot, DASHBOARD_HTML, DEFAULT_API_PORT, DEFAULT_ORCHESTRATOR_PORT, STATUS_BAD_REQUEST, STATUS_OK,
};

fn text_of(reply: &Reply) -> String {
    match &reply.body {
        Body::Text(t) => t.clone(),
        Body::Bytes(_) => panic!("expected a text body"),
    }
}

const PLAIN_TEXT: &str = "text/plain; charset=utf-8";

fn form(name: Option<&str>, value: Option<&str>) -> ConfigForm {
    ConfigForm { name: name.map(String::from), value: value.map(String::from) }
}

#[test]
fn health_check_answers_healthy() {
    let r = health_check();
    assert_eq!(r.status, 200);
    assert!(r.content_type.is_none());
    assert_eq!(text_of(&r), "Healthy");
}

#[test]
fn health_check_ignores_earlier_requests() {
    let mut snapshot = Snapshot::new();
    let before = health_check();
    let _ = save_config(form(Some("a"), Some("b")), &mut snapshot);
    let _ = save_config(form(None, Some("b")), &mut snapshot);
    let after = health_check();
    assert_eq!(before.status, after.status);
    assert_eq!(text_of(&before), text_of(&after));
    assert_eq!(text_of(&after), "Healthy");
}

#[test]
fn save_config_echoes_name_and_value() {
    let mut snapshot = Snapshot::new();
    let r = save_config(form(Some("foo"), Some("bar")), &mut snapshot);
    assert_eq!(r.status, STATUS_OK);
    assert_eq!(r.content_type.as_deref(), Some(PLAIN_TEXT));
    assert_eq!(text_of(&r), "Saved foo: bar");
}

#[test]
fn save_config_declares_markup_as_plain_text() {
    let mut snapshot = Snapshot::new();
    let r = save_config(form(Some("<script>x</script>"), Some("v")), &mut snapshot);
    assert_eq!(r.status, 200);
    assert_eq!(r.content_type.as_deref(), Some(PLAIN_TEXT));
    assert_eq!(text_of(&r), "Saved <script>x</script>: v");
}

#[test]
fn validate_form_accepts_a_complete_form() {
    match validate_form(form(Some("foo"), Some("bar"))) {
        Ok((name, value)) => assert_eq!((name.as_str(), value.as_str()), ("foo", "bar")),
        Err(_) => panic!("a complete form must pass"),
    }
}

#[test]
fn validate_form_rejects_a_missing_value() {
    match validate_form(form(Some("foo"), None)) {
        Ok(_) => panic!("a form without a value must fail"),
        Err(r) => {
            assert_eq!(r.status, 400);
            assert_eq!(r.content_type.as_deref(), Some(PLAIN_TEXT));
            assert_eq!(text_of(&r), "missing field `value`");
        }
    }
}

#[test]
fn save_entry_acknowledges() {
    let mut snapshot = Snapshot::new();
    let r = save_entry(String::from("level"), String::from("debug"), &mut snapshot);
    assert_eq!(r.status, 200);
    assert_eq!(r.content_type.as_deref(), Some(PLAIN_TEXT));
    assert_eq!(text_of(&r), "Saved level: debug");
}

#[test]
fn save_config_keeps_strings_verbatim() {
    let mut snapshot = Snapshot::new();
    let r = save_config(form(Some("<b>x</b>"), Some("")), &mut snapshot);
    assert_eq!(r.status, 200);
    assert_eq!(text_of(&r), "Saved <b>x</b>: ");
    let r = save_config(form(Some(""), Some("a: b")), &mut snapshot);
    assert_eq!(text_of(&r), "Saved : a: b");
}

#[test]
fn save_config_missing_name_is_client_error() {
    let mut snapshot = Snapshot::new();
    let r = save_config(form(None, Some("bar")), &mut snapshot);
    assert_eq!(r.status, STATUS_BAD_REQUEST);
    assert_eq!(r.content_type.as_deref(), Some(PLAIN_TEXT));
    assert_eq!(text_of(&r), "missing field `name`");
}

#[test]
fn save_config_missing_value_is_client_error() {
    let mut snapshot = Snapshot::new();
    let r = save_config(form(Some("foo"), None), &mut snapshot);
    assert_eq!(r.status, 400);
    assert_eq!(text_of(&r), "missing field `value`");
}

#[test]
fn save_config_missing_both_names_the_name() {
    let mut snapshot = Snapshot::new();
    let r = save_config(form(None, None), &mut snapshot);
    assert_eq!(r.status, 400);
    assert_eq!(text_of(&r), "missing field `name`");
}

#[test]
fn default_scenario_health_save_status() {
    let config = ServiceConfig::default();
    assert_eq!(config.api_port, 9001);
    assert_eq!(config.orchestrator_port, 3001);
    let mut snapshot = Snapshot::new();
    let health = health_check();
    assert_eq!((health.status, text_of(&health)), (200, String::from("Healthy")));
    let saved = save_config(form(Some("foo"), Some("bar")), &mut snapshot);
    assert_eq!((saved.status, text_of(&saved)), (200, String::from("Saved foo: bar")));
    let status = health_check();
    assert_eq!((status.status, text_of(&status)), (200, String::from("Healthy")));
}

#[test]
fn default_ports() {
    assert_eq!(DEFAULT_API_PORT, 9001);
    assert_eq!(DEFAULT_ORCHESTRATOR_PORT, 3001);
}

#[test]
fn snapshot_refreshes_repeatedly() {
    let mut snapshot = Snapshot::new();
    snapshot.refresh();
    snapshot.refresh();
    assert!(snapshot.system().total_memory() > 0);
}

#[test]
fn dashboard_serves_the_form() {
    let r = dashboard();
    assert_eq!(r.status, 200);
    let page = text_of(&r);
    assert_eq!(page, DASHBOARD_HTML);
    assert!(page.contains("<!DOCTYPE html>"));
    assert!(page.contains("action=\"/dashboard/save\""));
    assert!(page.contains("name=\"name\""));
    assert!(page.contains("name=\"value\""));
    assert!(page.contains("fetch('/api/logs')"));
}

#[test]
fn get_logs_returns_the_two_records() {
    let logs = get_logs();
    assert_eq!(logs.len(), 2);
    assert_eq!(logs[0].timestamp, "2025-03-08T16:35:00Z");
    assert_eq!(logs[0].level, "INFO");
    assert_eq!(logs[0].message, "System initialized");
    assert_eq!(logs[1].timestamp, "2025-03-08T16:36:00Z");
    assert_eq!(logs[1].level, "WARN");
    assert_eq!(logs[1].message, "High memory usage detected");
}
