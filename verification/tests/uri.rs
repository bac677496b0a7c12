use cloud_edit::uri::parse_uri;

#[test]
fn test_parse_uri_valid_s3() {
    let uri = Some(String::from("s3://mybucket/mykey"));
    let result = parse_uri(&uri).unwrap();
    assert_eq!(
        result,
        Some((String::from("mybucket"), String::from("mykey")))
    );
}

#[test]
fn test_parse_uri_valid_gcs() {
    let uri = Some(String::from("gs://mybucket/mykey"));
    let result = parse_uri(&uri).unwrap();
    assert_eq!(
        result,
        Some((String::from("mybucket"), String::from("mykey")))
    );
}

#[test]
fn test_parse_uri_invalid_format() {
    let uri = Some(String::from("invalid://mybucket/mykey"));
    let result = parse_uri(&uri);
    assert!(result.is_err());
}

#[test]
fn test_parse_uri_none() {
    let result = parse_uri(&None);
    assert_eq!(result.unwrap(), None);
}

#[test]
fn key_keeps_later_slashes() {
    let uri = Some(String::from("s3://bucket/a/b/c"));
    let result = parse_uri(&uri).unwrap();
    assert_eq!(result, Some((String::from("bucket"), String::from("a/b/c"))));
}

#[test]
fn missing_separator_is_an_error() {
    let uri = Some(String::from("s3://bucketonly"));
    assert!(parse_uri(&uri).is_err());
}

#[test]
fn bare_scheme_is_an_error() {
    let uri = Some(String::from("gs://"));
    assert!(parse_uri(&uri).is_err());
}

#[test]
fn empty_bucket_and_key_parse() {
    let uri = Some(String::from("s3:///"));
    let result = parse_uri(&uri).unwrap();
    assert_eq!(result, Some((String::new(), String::new())));
}

#[test]
fn short_string_is_an_error() {
    let uri = Some(String::from("s3:"));
    assert!(parse_uri(&uri).is_err());
}

#[test]
fn error_carries_a_message() {
    let uri = Some(String::from("ftp://x/y"));
    let err = parse_uri(&uri).unwrap_err();
    assert!(err.message().contains("s3://bucket/key"));
}
