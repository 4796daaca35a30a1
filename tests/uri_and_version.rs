use unified_runner::schema_version::{normalize_schema_version, pad_schema_version, SchemaVersion};
use unified_runner::uri::merge_uri_options;

fn opts(pairs: &[(&str, &str)]) -> Vec<(String, String)> {
    pairs.iter().map(|(k, v)| (k.to_string(), v.to_string())).collect()
}

#[test]
fn schema_version_padding() {
    assert_eq!(pad_schema_version("4"), "4.0.0");
    assert_eq!(pad_schema_version("4.2"), "4.2.0");
    assert_eq!(pad_schema_version("4.2.1"), "4.2.1");
    assert_eq!(pad_schema_version("1.2.3.4"), "1.2.3.4");
}

#[test]
fn schema_version_normalization() {
    let v = |major, minor, patch| SchemaVersion { major, minor, patch };
    assert_eq!(normalize_schema_version("4").unwrap(), v(4, 0, 0));
    assert_eq!(normalize_schema_version("4.2").unwrap(), v(4, 2, 0));
    assert_eq!(normalize_schema_version("4.2.1").unwrap(), v(4, 2, 1));
    assert_eq!(normalize_schema_version("1.13").unwrap(), v(1, 13, 0));
}

#[test]
fn schema_version_errors_carry_message() {
    let e = normalize_schema_version("1.2.3.4").unwrap_err();
    assert!(!e.message.is_empty());
    let e = normalize_schema_version("1.02").unwrap_err();
    assert!(e.message.contains("leading zero"), "{}", e.message);
    assert!(normalize_schema_version("x").is_err());
    assert!(normalize_schema_version("1.02").is_err());
    assert!(normalize_schema_version("").is_err());
}

#[test]
fn merge_without_overrides_is_identity() {
    for base in ["mongodb://host/?ssl=false&x=1", "mongodb://a", "", "weird??&&"] {
        assert_eq!(merge_uri_options(base, None), base);
    }
}

#[test]
fn merge_overrides_win_and_keep_others() {
    let o = opts(&[("ssl", "true"), ("w", "2")]);
    let merged = merge_uri_options("mongodb://host/?ssl=false&x=1", Some(&o));
    assert_eq!(merged, "mongodb://host/?x=1&ssl=true&w=2");
    let query = merged.split('?').nth(1).unwrap();
    let keys: Vec<&str> = query.split('&').map(|p| p.split('=').next().unwrap()).collect();
    assert_eq!(keys, vec!["x", "ssl", "w"]);
}

#[test]
fn merged_uri_options() {
    let o = opts(&[("ssl", "true"), ("w", "2"), ("readconcernlevel", "\"local\"")]);
    let merged = merge_uri_options("mongodb://localhost:27017", Some(&o));
    assert_eq!(merged, "mongodb://localhost:27017/?ssl=true&w=2&readconcernlevel=local");
}

#[test]
fn merge_keeps_auth_database_slash() {
    let o = opts(&[("w", "majority")]);
    assert_eq!(
        merge_uri_options("mongodb://h/admin?x=1", Some(&o)),
        "mongodb://h/admin?x=1&w=majority"
    );
    let none: Vec<(String, String)> = Vec::new();
    assert_eq!(merge_uri_options("mongodb://h", Some(&none)), "mongodb://h/");
    assert_eq!(merge_uri_options("mongodb://h/?a=1", Some(&none)), "mongodb://h/?a=1");
}

#[test]
fn merge_strips_quotes_from_values() {
    let o = opts(&[("appname", "\"\"app\"\"")]);
    assert_eq!(merge_uri_options("mongodb://h/", Some(&o)), "mongodb://h/?appname=app");
}
