use cunzhi::chunking::BlobItem;
use cunzhi::projects::ProjectIndex;
use cunzhi::wire::{blob_names, formatted_retrieval, retrieval_body, upload_body};

#[test]
fn upload_body_lists_path_and_content() {
    let blobs = vec![
        BlobItem { path: "a.rs".to_string(), content: "say \"hi\"\n".to_string() },
        BlobItem { path: "b.rs".to_string(), content: String::new() },
    ];
    assert_eq!(
        upload_body(&blobs),
        "{\"blobs\":[{\"path\":\"a.rs\",\"content\":\"say \\\"hi\\\"\\n\"},{\"path\":\"b.rs\",\"content\":\"\"}]}"
    );
    assert_eq!(upload_body(&Vec::new()), "{\"blobs\":[]}");
}

#[test]
fn retrieval_body_sends_every_identity() {
    let ids = vec!["x".to_string(), "y".to_string()];
    let body = retrieval_body("where is main", &ids);
    let value: serde_json::Value = serde_json::from_str(&body).unwrap();
    assert_eq!(value["information_request"], "where is main");
    assert_eq!(value["blobs"]["added_blobs"][1], "y");
    assert!(value["blobs"]["checkpoint_id"].is_null());
    assert_eq!(value["blobs"]["deleted_blobs"].as_array().unwrap().len(), 0);
    assert_eq!(value["max_output_length"], 0);
    assert_eq!(value["enable_commit_retrieval"], false);
}

#[test]
fn project_document_round_trip() {
    let mut index = ProjectIndex::new();
    index.set_ids("/b", vec!["2".to_string()]);
    index.set_ids("C:/a", vec!["1".to_string(), "3".to_string()]);
    let doc = index.to_document();
    assert_eq!(doc, "{\"/b\":[\"2\"],\"C:/a\":[\"1\",\"3\"]}");
    let back = ProjectIndex::from_document(&doc);
    assert_eq!(back.known_ids("C:/a"), vec!["1".to_string(), "3".to_string()]);
    assert_eq!(back.known_ids("/b"), vec!["2".to_string()]);
    assert!(ProjectIndex::from_document("not json").entries.is_empty());
    assert!(ProjectIndex::from_document("").entries.is_empty());
}

#[test]
fn upload_answers_list_names() {
    assert_eq!(blob_names("{\"blob_names\":[\"a\",1,\"b\"]}"), Some(vec!["a".to_string(), "b".to_string()]));
    assert_eq!(blob_names("{\"blob_names\":[]}"), Some(Vec::new()));
    assert_eq!(blob_names("{\"other\":1}"), None);
    assert_eq!(blob_names("not json"), None);
}

#[test]
fn retrieval_answers_give_text() {
    assert_eq!(formatted_retrieval("{\"formatted_retrieval\":\"code\"}").unwrap(), Some("code".to_string()));
    assert_eq!(formatted_retrieval("{}").unwrap(), None);
    assert!(formatted_retrieval("<html>").is_err());
}

#[test]
fn control_characters_are_escaped() {
    let blobs = vec![BlobItem { path: "t\\x".to_string(), content: "\u{1}\t".to_string() }];
    assert_eq!(upload_body(&blobs), "{\"blobs\":[{\"path\":\"t\\\\x\",\"content\":\"\\u0001\\t\"}]}");
}
