use loon::api::{parse_person_id, ApiError};

#[test]
fn parses_numeric_person_id() {
    assert_eq!(parse_person_id("85").unwrap(), 85);
}

#[test]
fn parses_prefixed_and_padded_person_id() {
    assert_eq!(parse_person_id("  tmdb: 85 ").unwrap(), 85);
    assert_eq!(parse_person_id("+7").unwrap(), 7);
}

#[test]
fn rejects_non_numeric_person_id() {
    let err = parse_person_id("tmdb:abc").unwrap_err();
    assert_eq!(err.status(), 400);
    assert_eq!(
        err,
        ApiError::InvalidRequest {
            message: "tmdb_id must be a numeric TMDB person id".to_string()
        }
    );
    assert!(parse_person_id("4294967296").is_err());
    assert!(parse_person_id("").is_err());
    assert!(parse_person_id("-1").is_err());
}
