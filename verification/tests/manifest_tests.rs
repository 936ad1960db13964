use plugin_host::manifest::{capture_filename_from_header, parse_manifest, read_manifest};

#[test]
fn manifest_is_read_from_the_answer() {
    let body = r#"{"latest_version": "1.3.0", "download_url": "/download?version=1.3.0", "checksum": "c3fcd3d76192e4007dfb496cca67e13b"}"#;
    let manifest = parse_manifest(body).unwrap();
    assert_eq!(manifest.latest_version, "1.3.0");
    assert_eq!(manifest.download_url, "/download?version=1.3.0");
    assert_eq!(manifest.checksum, "c3fcd3d76192e4007dfb496cca67e13b");
}

#[test]
fn manifest_keeps_an_empty_locator() {
    let body = r#"  {"checksum": "", "download_url": "", "latest_version": "1.0.0", "extra": 3}  "#;
    let manifest = parse_manifest(body).unwrap();
    assert_eq!(manifest.latest_version, "1.0.0");
    assert_eq!(manifest.download_url, "");
    assert_eq!(manifest.checksum, "");
}

#[test]
fn unreadable_answers_hold_no_manifest() {
    assert!(parse_manifest("").is_none());
    assert!(parse_manifest("not json").is_none());
    assert!(parse_manifest("[1, 2]").is_none());
    assert!(parse_manifest("\"latest_version\"").is_none());
    assert!(parse_manifest(r#"{"latest_version": "1.0.0", "download_url": "u"}"#).is_none());
    assert!(parse_manifest(r#"{"latest_version": 1, "download_url": "u", "checksum": "c"}"#).is_none());
    assert!(parse_manifest(r#"{"latest_version": "1", "download_url": null, "checksum": "c"}"#).is_none());
    assert!(parse_manifest(r#"{"latest_version": "1", "download_url": "u", "checksum": "c"} x"#).is_none());
}

#[test]
fn manifest_from_a_parsed_value() {
    let mut members = serde_json::Map::new();
    members.insert("latest_version".to_string(), serde_json::Value::String("2.0.0".to_string()));
    members.insert("download_url".to_string(), serde_json::Value::String("u".to_string()));
    members.insert("checksum".to_string(), serde_json::Value::String("c".to_string()));
    let manifest = read_manifest(&serde_json::Value::Object(members.clone())).unwrap();
    assert_eq!(manifest.latest_version, "2.0.0");
    assert_eq!(manifest.download_url, "u");
    assert_eq!(manifest.checksum, "c");
    members.insert("checksum".to_string(), serde_json::Value::Bool(true));
    assert!(read_manifest(&serde_json::Value::Object(members)).is_none());
    assert!(read_manifest(&serde_json::Value::Null).is_none());
    assert!(read_manifest(&serde_json::Value::String("checksum".to_string())).is_none());
}

#[test]
fn file_name_from_content_disposition() {
    assert_eq!(capture_filename_from_header("attachment; filename=\"plugin_1.2.3.wasm\""), "plugin_1.2.3.wasm");
    assert_eq!(capture_filename_from_header("attachment; filename=plugin_1.2.3.wasm"), "plugin_1.2.3.wasm");
    assert_eq!(capture_filename_from_header("a=b; filename=\"\"x.wasm\"\"\""), "x.wasm");
    assert_eq!(capture_filename_from_header("no equals sign"), "no equals sign");
    assert_eq!(capture_filename_from_header("\"quoted\""), "quoted");
    assert_eq!(capture_filename_from_header("filename="), "");
    assert_eq!(capture_filename_from_header("filename=\"\""), "");
    assert_eq!(capture_filename_from_header("filename=\"a\"b\""), "a\"b");
    assert_eq!(capture_filename_from_header(""), "");
}
