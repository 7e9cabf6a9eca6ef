use alert_poster::config::{AlertKind, Service, TemplateConfig, TemplateEntry};
use alert_poster::dispatch::{decide, handle, Action, AlertEvent};
use alert_poster::template::{context, engine_accepts_text, render, template_is_valid, template_result};

fn entry(down: &str, up: &str) -> TemplateEntry {
    TemplateEntry::new(down.to_string(), up.to_string())
}

fn event(kind: AlertKind, group: &str, name: &str) -> AlertEvent {
    AlertEvent { kind, group: group.to_string(), name: name.to_string(), description: None }
}

fn store() -> TemplateConfig {
    TemplateConfig::new(
        entry("{group}/{name} is down", "{group}/{name} is up"),
        entry("{friendly_name} is down", "{friendly_name} is up"),
    )
}

#[test]
fn render_substitutes_fields() {
    assert_eq!(render("{name} in {group}", "db", "primary", None).unwrap(), "primary in db");
    assert_eq!(render("{friendly_name}!", "web", "api", Some("API Gateway")).unwrap(), "API Gateway!");
}

#[test]
fn render_is_repeatable() {
    let a = render("{name} in {group}", "db", "primary", Some("x")).unwrap();
    let b = render("{name} in {group}", "db", "primary", Some("x")).unwrap();
    assert_eq!(a, b);
}

#[test]
fn render_absent_friendly_name_fails() {
    assert!(render("{friendly_name} is down", "web", "api", None).is_err());
}

#[test]
fn render_without_friendly_name_reference_succeeds_either_way() {
    assert_eq!(render("{name} down", "web", "api", None).unwrap(), "api down");
    assert_eq!(render("{name} down", "web", "api", Some("API")).unwrap(), "api down");
}

#[test]
fn render_rejects_malformed_template() {
    assert!(render("{name", "web", "api", None).is_err());
    assert!(render("{unknown}", "web", "api", None).is_err());
}

#[test]
fn context_lists_fields() {
    let f = context("g", "n", None);
    assert_eq!(f, vec![("name".to_string(), "n".to_string()), ("group".to_string(), "g".to_string())]);
    let f = context("g", "n", Some("F"));
    assert_eq!(f.len(), 3);
    assert_eq!(f[2], ("friendly_name".to_string(), "F".to_string()));
}

#[test]
fn template_result_maps_error() {
    assert_eq!(template_result(Ok("x".to_string())).unwrap(), "x");
    assert_eq!(template_result(Err("bad".to_string())).unwrap_err().message, "bad");
}

#[test]
fn decide_by_mode() {
    assert_eq!(decide(Ok("t".to_string()), true).unwrap(), Action::Publish("t".to_string()));
    assert_eq!(decide(Ok("t".to_string()), false).unwrap(), Action::Skip("t".to_string()));
    assert!(decide(template_result(Err("e".to_string())), true).is_err());
}

#[test]
fn scenario_no_override() {
    let c = store();
    let r = handle(&c, true, &event(AlertKind::Triggered, "db", "primary")).unwrap();
    assert_eq!(r, Action::Publish("db/primary is down".to_string()));
}

#[test]
fn scenario_friendly_name_only() {
    let mut c = store();
    assert!(c.add_service("web".to_string(), "api".to_string(), Service::new(Some("API Gateway".to_string()), None)));
    let r = handle(&c, true, &event(AlertKind::Resolved, "web", "api")).unwrap();
    assert_eq!(r, Action::Publish("API Gateway is up".to_string()));
}

#[test]
fn scenario_friendly_name_and_template() {
    let mut c = store();
    let custom = entry("ALERT {friendly_name} ({group}/{name})", "OK {friendly_name}");
    assert!(c.add_service("web".to_string(), "api".to_string(), Service::new(Some("API Gateway".to_string()), Some(custom))));
    let r = handle(&c, true, &event(AlertKind::Triggered, "web", "api")).unwrap();
    assert_eq!(r, Action::Publish("ALERT API Gateway (web/api)".to_string()));
}

#[test]
fn not_live_skips_with_text() {
    let c = store();
    let r = handle(&c, false, &event(AlertKind::Resolved, "db", "primary")).unwrap();
    assert_eq!(r, Action::Skip("db/primary is up".to_string()));
}

#[test]
fn template_error_reaches_caller() {
    let mut c = store();
    assert!(c.add_service("web".to_string(), "api".to_string(), Service::new(None, Some(entry("{friendly_name}", "x")))));
    assert!(handle(&c, false, &event(AlertKind::Triggered, "web", "api")).is_err());
}

#[test]
fn render_rejects_trailing_backslash() {
    assert!(render("down\\", "web", "api", None).is_err());
    assert!(!engine_accepts_text("down\\"));
}

#[test]
fn render_rejects_empty_comment() {
    assert!(render("a {#} b", "web", "api", None).is_err());
    assert!(!engine_accepts_text("{#}"));
}

#[test]
fn render_rejects_bare_if_not() {
    assert!(render("{{ if not }}x{{ endif }}", "web", "api", None).is_err());
    assert!(render("{{ if not -}}x{{ endif }}", "web", "api", None).is_err());
    assert!(render("{{ if not\u{e4} }}x{{ endif }}", "web", "api", None).is_err());
}

#[test]
fn engine_accepts_ordinary_text() {
    assert!(engine_accepts_text("{name} is not responding"));
    assert!(engine_accepts_text("\\{name} {# note #}"));
    assert!(engine_accepts_text(""));
    assert_eq!(render("{{ if not friendly_name }}none{{ endif }}{name}", "g", "n", Some("")).unwrap(), "nonen");
}

#[test]
fn template_validity() {
    assert!(template_is_valid("{group}/{name} is down"));
    assert!(!template_is_valid("{name"));
    assert!(!template_is_valid("{{ endif }}"));
    assert!(!template_is_valid("x\\"));
}

#[test]
fn checked_entry() {
    assert!(TemplateEntry::checked("{name} down".to_string(), "{name} up".to_string()).is_ok());
    assert!(TemplateEntry::checked("{name".to_string(), "ok".to_string()).is_err());
    assert!(TemplateEntry::checked("ok".to_string(), "{#}".to_string()).is_err());
    let e = TemplateEntry::checked("d".to_string(), "u".to_string()).unwrap();
    assert_eq!(e.get(AlertKind::Triggered), "d");
    assert_eq!(e.get(AlertKind::Resolved), "u");
}
