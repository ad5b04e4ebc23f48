use captioner::json::{extract_caption, parse_json, JsonNode};

fn text(s: &str) -> JsonNode {
    JsonNode::Text(s.to_string())
}

fn obj(fields: Vec<(&str, JsonNode)>) -> JsonNode {
    JsonNode::Object(fields.into_iter().map(|(k, v)| (k.to_string(), v)).collect())
}

fn caption_tree(caption: &str) -> JsonNode {
    obj(vec![(
        "candidates",
        JsonNode::List(vec![obj(vec![(
            "content",
            obj(vec![("parts", JsonNode::List(vec![obj(vec![("text", text(caption))])]))]),
        )])]),
    )])
}

#[test]
fn extracts_caption_at_the_fixed_path() {
    let root = caption_tree("A red bicycle leaning on a wall.");
    assert_eq!(
        extract_caption(&root),
        Some("A red bicycle leaning on a wall.".to_string())
    );
}

#[test]
fn missing_candidates_key_gives_none() {
    let root = obj(vec![("other", text("x"))]);
    assert_eq!(extract_caption(&root), None);
}

#[test]
fn empty_candidates_array_gives_none() {
    let root = obj(vec![("candidates", JsonNode::List(vec![]))]);
    assert_eq!(extract_caption(&root), None);
}

#[test]
fn non_string_text_field_gives_none() {
    let root = obj(vec![(
        "candidates",
        JsonNode::List(vec![obj(vec![(
            "content",
            obj(vec![(
                "parts",
                JsonNode::List(vec![obj(vec![("text", JsonNode::Other)])]),
            )]),
        )])]),
    )]);
    assert_eq!(extract_caption(&root), None);
}

#[test]
fn later_object_fields_are_still_found() {
    let root = obj(vec![("a", JsonNode::Other), ("b", text("hit"))]);
    let key = "b".to_string();
    match root.member(&key) {
        Some(JsonNode::Text(s)) => assert_eq!(s, "hit"),
        other => panic!("expected the text node, got {:?}", other.is_some()),
    }
}

#[test]
fn parse_json_builds_the_expected_tree() {
    let body = r#"{"candidates":[{"content":{"parts":[{"text":"A cat."}]}}]}"#;
    let root = parse_json(body).expect("well-formed JSON must parse");
    assert_eq!(extract_caption(&root), Some("A cat.".to_string()));
}

#[test]
fn parse_json_rejects_malformed_text() {
    assert!(parse_json("{\"candidates\": [").is_none());
}

#[test]
fn parse_json_keeps_numbers_only_as_opaque_leaves() {
    let body = r#"{"candidates":[{"content":{"parts":[{"text":12}]}}]}"#;
    let root = parse_json(body).expect("well-formed JSON must parse");
    assert_eq!(extract_caption(&root), None);
}
