use libnetctl::nccli::format::{join_strings, FieldFormatter, OutputMode};

fn row() -> Vec<(String, String)> {
    vec![
        ("NAME".to_string(), "home".to_string()),
        ("TYPE".to_string(), "wifi".to_string()),
        ("DEVICE".to_string(), "wlan0".to_string()),
    ]
}

#[test]
fn join() {
    let parts = vec!["a".to_string(), "b".to_string(), "c".to_string()];
    assert_eq!(join_strings(&parts, ", "), "a, b, c");
    assert_eq!(join_strings(&Vec::new(), ", "), "");
}

#[test]
fn tabular_line_and_header() {
    let f = FieldFormatter::new(None, OutputMode::Tabular, false);
    assert_eq!(f.format_line(&row()), "home  wifi  wlan0");
    let headers = vec!["NAME".to_string(), "TYPE".to_string(), "DEVICE".to_string()];
    assert_eq!(f.header_line(&headers).unwrap(), "NAME  TYPE  DEVICE");
}

#[test]
fn selected_fields_are_case_insensitive() {
    let f = FieldFormatter::new(Some("name, device"), OutputMode::Tabular, false);
    assert!(f.should_show_field("NAME"));
    assert!(f.should_show_field("device"));
    assert!(!f.should_show_field("TYPE"));
    assert_eq!(f.format_line(&row()), "home  wlan0");
}

#[test]
fn terse_and_multiline() {
    let t = FieldFormatter::new(None, OutputMode::Terse, false);
    assert_eq!(t.format_line(&row()), "home:wifi:wlan0");
    assert!(t.header_line(&vec!["NAME".to_string()]).is_none());
    let m = FieldFormatter::new(Some("NAME,TYPE"), OutputMode::Multiline, false);
    assert_eq!(m.format_line(&row()), "NAME:home\nTYPE:wifi");
    let tt = FieldFormatter::new(None, OutputMode::Tabular, true);
    assert_eq!(tt.format_line(&row()), "home:wifi:wlan0");
    assert!(tt.header_line(&vec!["NAME".to_string()]).is_none());
}
