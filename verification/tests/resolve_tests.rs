use ding::alert::Alert;
use ding::resolve::resolve_url;

fn alert_with(url: Option<&str>) -> Alert {
    let mut alert = Alert::new(
        "firing".to_string(),
        "start".to_string(),
        "end".to_string(),
        "generator".to_string(),
        "print".to_string(),
    );
    alert.set_label("alertname".to_string(), "Name".to_string());
    if let Some(url) = url {
        alert.set_annotation("ding_url".to_string(), url.to_string());
    }
    alert
}

#[test]
fn default_is_kept_where_no_alert_names_a_webhook() {
    let alerts = vec![alert_with(None), alert_with(None)];
    assert_eq!(resolve_url("https://default", &alerts), "https://default");
}

#[test]
fn default_is_kept_for_no_alert() {
    let alerts: Vec<Alert> = Vec::new();
    assert_eq!(resolve_url("https://default", &alerts), "https://default");
}

#[test]
fn single_override_is_chosen() {
    let alerts = vec![alert_with(Some("https://X"))];
    assert_eq!(resolve_url("https://default", &alerts), "https://X");
}

#[test]
fn single_override_is_chosen_wherever_it_stands() {
    let first = vec![alert_with(Some("https://X")), alert_with(None), alert_with(None)];
    assert_eq!(resolve_url("https://default", &first), "https://X");
    let middle = vec![alert_with(None), alert_with(Some("https://X")), alert_with(None)];
    assert_eq!(resolve_url("https://default", &middle), "https://X");
    let last = vec![alert_with(None), alert_with(None), alert_with(Some("https://X"))];
    assert_eq!(resolve_url("https://default", &last), "https://X");
}

#[test]
fn last_override_wins() {
    let alerts = vec![
        alert_with(Some("https://one")),
        alert_with(Some("https://two")),
        alert_with(None),
        alert_with(Some("https://three")),
        alert_with(None),
    ];
    assert_eq!(resolve_url("https://default", &alerts), "https://three");
}

#[test]
fn an_empty_override_still_replaces_the_default() {
    let alerts = vec![alert_with(Some("https://one")), alert_with(Some(""))];
    assert_eq!(resolve_url("https://default", &alerts), "");
}

#[test]
fn override_key_is_case_sensitive() {
    let mut alert = alert_with(None);
    alert.set_annotation("Ding_Url".to_string(), "https://other".to_string());
    assert_eq!(resolve_url("https://default", &vec![alert]), "https://default");
}
