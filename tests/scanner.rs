use fidgetapps::catalog::{apps_to_json, list_apps_json, scan_entries};
use fidgetapps::desktop_entry::{first_token_of, parse_desktop_entry, strip_quotes_of, DesktopApp};

fn lines(text: &[&str]) -> Vec<String> {
    text.iter().map(|l| l.to_string()).collect()
}

fn app(name: &str, program: &str) -> DesktopApp {
    DesktopApp { name: name.to_string(), program: program.to_string() }
}

fn parsed(json: &str) -> Vec<(String, String)> {
    let v: serde_json::Value = serde_json::from_str(json).unwrap();
    v.as_array()
        .unwrap()
        .iter()
        .map(|o| {
            let o = o.as_object().unwrap();
            assert_eq!(o.len(), 2);
            (
                o["name"].as_str().unwrap().to_string(),
                o["exec"].as_str().unwrap().to_string(),
            )
        })
        .collect()
}

#[test]
fn extracts_name_and_quoted_exec() {
    let file = lines(&["[Desktop Entry]", "Name=Foo Bar", "Exec=\"/usr/bin/foo\" %U"]);
    assert_eq!(parse_desktop_entry(&file), Some(app("Foo Bar", "/usr/bin/foo")));
    let json = list_apps_json(&vec![file]);
    assert_eq!(parsed(&json), vec![("Foo Bar".to_string(), "/usr/bin/foo".to_string())]);
}

#[test]
fn first_name_line_wins() {
    let file = lines(&["Name=First", "Name=Second", "Exec=first-app"]);
    assert_eq!(parse_desktop_entry(&file), Some(app("First", "first-app")));
}

#[test]
fn first_exec_line_wins() {
    let file = lines(&["Exec=one --x", "Exec=two", "Name[de]=Eins", "Name=One"]);
    assert_eq!(parse_desktop_entry(&file), Some(app("One", "one")));
}

#[test]
fn exec_before_name_is_kept() {
    let file = lines(&["Exec=/opt/tool/run %f", "Name=Tool"]);
    assert_eq!(parse_desktop_entry(&file), Some(app("Tool", "/opt/tool/run")));
}

#[test]
fn name_without_exec_is_skipped() {
    let file = lines(&["[Desktop Entry]", "Name=No Program", "Type=Application"]);
    assert_eq!(parse_desktop_entry(&file), None);
    assert_eq!(list_apps_json(&vec![file]), "[]");
}

#[test]
fn exec_without_name_is_skipped() {
    let file = lines(&["Exec=orphan"]);
    assert_eq!(parse_desktop_entry(&file), None);
}

#[test]
fn no_files_give_empty_array() {
    assert_eq!(list_apps_json(&Vec::new()), "[]");
    assert_eq!(list_apps_json(&vec![Vec::new()]), "[]");
}

#[test]
fn empty_exec_gives_empty_program() {
    let file = lines(&["Name=Blank", "Exec=   "]);
    assert_eq!(parse_desktop_entry(&file), Some(app("Blank", "")));
}

#[test]
fn name_keeps_its_text_verbatim() {
    let file = lines(&["Name=  Spaced \\s Name ", "Exec=x"]);
    assert_eq!(parse_desktop_entry(&file), Some(app("  Spaced \\s Name ", "x")));
}

#[test]
fn scan_keeps_file_order_and_skips_incomplete() {
    let files = vec![
        lines(&["Name=B", "Exec=b"]),
        lines(&["Name=Skipped"]),
        lines(&["Name=A", "Exec=a %u"]),
    ];
    assert_eq!(scan_entries(&files), vec![app("B", "b"), app("A", "a")]);
    let json = list_apps_json(&files);
    assert_eq!(
        parsed(&json),
        vec![("B".to_string(), "b".to_string()), ("A".to_string(), "a".to_string())]
    );
}

#[test]
fn json_escapes_text() {
    let json = apps_to_json(&vec![app("Say \"hi\"", "/bin/echo")]);
    assert!(json.contains("\\\"hi\\\""));
    assert_eq!(parsed(&json), vec![("Say \"hi\"".to_string(), "/bin/echo".to_string())]);
}

#[test]
fn json_of_one_app_is_compact() {
    let json = apps_to_json(&vec![app("Foo Bar", "/usr/bin/foo")]);
    assert!(json.starts_with("[{") && json.ends_with("}]"));
    assert!(json.contains("\"name\":\"Foo Bar\""));
    assert!(json.contains("\"exec\":\"/usr/bin/foo\""));
}

#[test]
fn token_skips_unicode_white_space() {
    assert_eq!(first_token_of("\u{3000}\t prog\u{a0}arg"), "prog");
    assert_eq!(first_token_of(""), "");
    assert_eq!(first_token_of("solo"), "solo");
}

#[test]
fn quotes_strip_one_pair() {
    assert_eq!(strip_quotes_of("\"a b\""), "a b");
    assert_eq!(strip_quotes_of("\"\"x\"\""), "\"x\"");
    assert_eq!(strip_quotes_of("\"open"), "\"open");
    assert_eq!(strip_quotes_of("\"\""), "");
    assert_eq!(strip_quotes_of("\""), "");
    assert_eq!(strip_quotes_of("plain"), "plain");
}

#[test]
fn unmatched_quote_is_kept() {
    let file = lines(&["Name=My App", "Exec=\"/opt/My App/app\" %U"]);
    assert_eq!(parse_desktop_entry(&file), Some(app("My App", "\"/opt/My")));
    let json = list_apps_json(&vec![file]);
    assert_eq!(parsed(&json), vec![("My App".to_string(), "\"/opt/My".to_string())]);
}
