use ding::alert::Alert;
use ding::render::{render_block, render_markdown, MissingKey, RenderError};

fn alert(name: Option<&str>, summary: Option<&str>, description: Option<&str>) -> Alert {
    let mut alert = Alert::new(
        "firing".to_string(),
        "2024-01-01T00:00:00Z".to_string(),
        "0001-01-01T00:00:00Z".to_string(),
        "http://prometheus/graph".to_string(),
        "c0ffee".to_string(),
    );
    if let Some(name) = name {
        alert.set_label("alertname".to_string(), name.to_string());
    }
    if let Some(summary) = summary {
        alert.set_annotation("summary".to_string(), summary.to_string());
    }
    if let Some(description) = description {
        alert.set_annotation("description".to_string(), description.to_string());
    }
    alert
}

#[test]
fn block_of_one_alert_is_exact() {
    let a = alert(Some("HighCPU"), Some("CPU high"), Some("node1 cpu 95%"));
    let text = render_block(&a, "2024-05-06 07:08:09 +08:00").unwrap();
    assert_eq!(
        text,
        "## HighCPU\n* date:2024-05-06 07:08:09 +08:00\n* summary:CPU high\n* description:node1 cpu 95%\n"
    );
}

#[test]
fn markdown_of_one_alert_is_its_block() {
    let alerts = vec![alert(Some("HighCPU"), Some("CPU high"), Some("node1 cpu 95%"))];
    let text = render_markdown(&alerts, "D").unwrap();
    assert_eq!(text, "## HighCPU\n* date:D\n* summary:CPU high\n* description:node1 cpu 95%\n");
}

#[test]
fn markdown_joins_blocks_with_an_empty_line_in_input_order() {
    let alerts = vec![
        alert(Some("B"), Some("s1"), Some("d1")),
        alert(Some("A"), Some("s2"), Some("d2")),
        alert(Some("C"), Some("s3"), Some("d3")),
    ];
    let text = render_markdown(&alerts, "now").unwrap();
    assert_eq!(
        text,
        "## B\n* date:now\n* summary:s1\n* description:d1\n\n\
         ## A\n* date:now\n* summary:s2\n* description:d2\n\n\
         ## C\n* date:now\n* summary:s3\n* description:d3\n"
    );
}

#[test]
fn markdown_has_one_heading_per_alert() {
    let alerts = vec![
        alert(Some("first"), Some("a"), Some("b")),
        alert(Some("second"), Some("c"), Some("d")),
    ];
    let text = render_markdown(&alerts, "t").unwrap();
    let headings: Vec<&str> = text.lines().filter(|line| line.starts_with("## ")).collect();
    assert_eq!(headings, vec!["## first", "## second"]);
}

#[test]
fn markdown_of_no_alert_is_empty() {
    let alerts: Vec<Alert> = Vec::new();
    assert_eq!(render_markdown(&alerts, "t").unwrap(), "");
}

#[test]
fn empty_values_are_rendered_as_they_are() {
    let alerts = vec![alert(Some(""), Some(""), Some(""))];
    assert_eq!(render_markdown(&alerts, "").unwrap(), "## \n* date:\n* summary:\n* description:\n");
}

#[test]
fn missing_alertname_is_reported_first() {
    let a = alert(None, None, None);
    assert_eq!(render_block(&a, "t"), Err(MissingKey::Alertname));
}

#[test]
fn missing_summary_is_reported_before_description() {
    let a = alert(Some("x"), None, None);
    assert_eq!(render_block(&a, "t"), Err(MissingKey::Summary));
}

#[test]
fn missing_description_is_reported() {
    let a = alert(Some("x"), Some("s"), None);
    assert_eq!(render_block(&a, "t"), Err(MissingKey::Description));
}

#[test]
fn label_keys_are_case_sensitive() {
    let mut a = alert(None, Some("s"), Some("d"));
    a.set_label("AlertName".to_string(), "x".to_string());
    assert_eq!(render_block(&a, "t"), Err(MissingKey::Alertname));
}

#[test]
fn first_alert_that_cannot_be_rendered_is_named() {
    let alerts = vec![
        alert(Some("ok"), Some("s"), Some("d")),
        alert(Some("x"), Some("s"), None),
        alert(None, None, None),
    ];
    assert_eq!(
        render_markdown(&alerts, "t"),
        Err(RenderError { index: 1, key: MissingKey::Description })
    );
}

#[test]
fn render_error_descriptions_are_exact() {
    let e = RenderError { index: 0, key: MissingKey::Alertname };
    assert_eq!(e.description(), "render failed: alert 0 has no label alertname");
    let e = RenderError { index: 12, key: MissingKey::Summary };
    assert_eq!(e.description(), "render failed: alert 12 has no annotation summary");
    let e = RenderError { index: 305, key: MissingKey::Description };
    assert_eq!(e.description(), "render failed: alert 305 has no annotation description");
}
