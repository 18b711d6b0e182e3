use dotaudit::descriptor_from_entry;
use dotaudit::document_descriptors;
use dotaudit::parse_documents;

fn parse_one(text: &str) -> serde_json::Value {
    serde_json::from_str(text).unwrap()
}

#[test]
fn full_entry_is_extracted() {
    let doc = parse_one(
        "{\"files\":[{\"name\":\"A\",\"path\":\"/p\",\"movable\":true,\"help\":\"h\"}]}",
    );
    let ds = document_descriptors(&doc);
    assert_eq!(ds.len(), 1);
    assert_eq!(ds[0].name, "A");
    assert_eq!(ds[0].raw_path, "/p");
    assert!(ds[0].movable);
    assert_eq!(ds[0].help, "h");
}

#[test]
fn entry_without_path_is_skipped_silently() {
    let doc = parse_one(
        "{\"files\":[{\"name\":\"A\",\"help\":\"h\"},{\"name\":\"B\",\"path\":\"/q\"}]}",
    );
    let ds = document_descriptors(&doc);
    assert_eq!(ds.len(), 1);
    assert_eq!(ds[0].name, "B");
    assert_eq!(ds[0].raw_path, "/q");
}

#[test]
fn entry_with_non_string_path_is_skipped() {
    let doc = parse_one("{\"files\":[{\"name\":\"A\",\"path\":7}]}");
    assert_eq!(document_descriptors(&doc).len(), 0);
}

#[test]
fn missing_files_key_yields_no_descriptors() {
    let doc = parse_one("{\"programs\":[]}");
    assert_eq!(document_descriptors(&doc).len(), 0);
}

#[test]
fn null_files_yields_no_descriptors() {
    let doc = parse_one("{\"files\":null}");
    assert_eq!(document_descriptors(&doc).len(), 0);
}

#[test]
fn non_array_files_yields_no_descriptors() {
    let doc = parse_one("{\"files\":\"not an array\"}");
    assert_eq!(document_descriptors(&doc).len(), 0);
    let doc2 = parse_one("{\"files\":{\"path\":\"/p\"}}");
    assert_eq!(document_descriptors(&doc2).len(), 0);
}

#[test]
fn wrongly_typed_optional_fields_fall_back_to_defaults() {
    let doc = parse_one(
        "{\"files\":[{\"name\":3,\"path\":\"/p\",\"movable\":\"yes\",\"help\":false}]}",
    );
    let ds = document_descriptors(&doc);
    assert_eq!(ds.len(), 1);
    assert_eq!(ds[0].name, "Unknown");
    assert!(!ds[0].movable);
    assert_eq!(ds[0].help, "No help available");
}

#[test]
fn descriptor_from_entry_reads_one_entry() {
    let entry = parse_one("{\"name\":\"A\",\"path\":\"$HOME/.conf\"}");
    let d = descriptor_from_entry(&entry).unwrap();
    assert_eq!(d.name, "A");
    assert_eq!(d.raw_path, "$HOME/.conf");

    let no_path = parse_one("{\"name\":\"A\"}");
    assert!(descriptor_from_entry(&no_path).is_none());
}

#[test]
fn parse_documents_parses_each_text_in_order() {
    let texts = vec![
        "{\"files\":[]}".to_string(),
        "{\"files\":[{\"path\":\"/p\"}]}".to_string(),
    ];
    let parsed = parse_documents(&texts).unwrap();
    assert_eq!(parsed.len(), 2);
    assert_eq!(document_descriptors(&parsed[0]).len(), 0);
    assert_eq!(document_descriptors(&parsed[1]).len(), 1);
}

#[test]
fn parse_documents_fails_fast_on_a_bad_document() {
    let texts = vec!["{\"files\":[]}".to_string(), "{not json".to_string()];
    let err = parse_documents(&texts).unwrap_err();
    assert!(!err.message.is_empty());
}

#[test]
fn parse_documents_error_is_the_parsers_own_diagnostic() {
    let bad = "{not json".to_string();
    let expected = serde_json::from_str::<serde_json::Value>(&bad)
        .unwrap_err()
        .to_string();
    let err = parse_documents(&vec!["{}".to_string(), bad]).unwrap_err();
    assert_eq!(err.message, expected);
}

#[test]
fn parse_documents_values_match_a_direct_parse() {
    let text = "{\"files\":[{\"path\":\"/p\",\"movable\":true}]}".to_string();
    let parsed = parse_documents(&vec![text.clone()]).unwrap();
    let direct: serde_json::Value = serde_json::from_str(&text).unwrap();
    assert_eq!(parsed[0], direct);
}
