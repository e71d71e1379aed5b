use cunzhi::chunking::split_content;
use cunzhi::identity::sha256_hex;
use cunzhi::scan::{entry_action, extension_admitted, file_blobs, path_segments, read_text, should_exclude, EntryAction};

#[test]
fn small_file_is_one_blob() {
    let blobs = split_content("src/a.rs", "line1\nline2\n", 800);
    assert_eq!(blobs.len(), 1);
    assert_eq!(blobs[0].path, "src/a.rs");
    assert_eq!(blobs[0].content, "line1\nline2\n");
}

#[test]
fn empty_file_is_one_empty_blob() {
    let blobs = split_content("e.rs", "", 3);
    assert_eq!(blobs.len(), 1);
    assert_eq!(blobs[0].content, "");
}

#[test]
fn five_lines_limit_two_gives_three_chunks() {
    let content = "a\nb\nc\nd\ne";
    let blobs = split_content("f.rs", content, 2);
    assert_eq!(blobs.len(), 3);
    assert_eq!(blobs[0].path, "f.rs#chunk1of3");
    assert_eq!(blobs[1].path, "f.rs#chunk2of3");
    assert_eq!(blobs[2].path, "f.rs#chunk3of3");
    assert_eq!(blobs[0].content, "a\nb\n");
    assert_eq!(blobs[1].content, "c\nd\n");
    assert_eq!(blobs[2].content, "e");
    let joined: String = blobs.iter().map(|b| b.content.as_str()).collect();
    assert_eq!(joined, content);
}

#[test]
fn chunk_count_is_ceiling() {
    let content: String = (0..25).map(|i| format!("{}\n", i)).collect();
    let blobs = split_content("big.txt", &content, 10);
    assert_eq!(blobs.len(), 3);
    assert_eq!(blobs[2].path, "big.txt#chunk3of3");
    let blobs = split_content("big.txt", &content, 5);
    assert_eq!(blobs.len(), 5);
    let joined: String = blobs.iter().map(|b| b.content.as_str()).collect();
    assert_eq!(joined, content);
    let blobs = split_content("big.txt", &content, 25);
    assert_eq!(blobs.len(), 1);
}

#[test]
fn identity_is_hash_of_path_then_content() {
    assert_eq!(
        sha256_hex("a.rs", "fn main() {}\n"),
        "f914a8f796f1463c58b148d81bb61ef56c0964a910cad41f66e469ef2b2fac5a"
    );
    assert_eq!(sha256_hex("b.rs", "x"), "c3ff8228096c7a8471a94d253f94c5d1ba867e8861c52195dc82414987da093f");
    assert_eq!(sha256_hex("b.rs", "x"), sha256_hex("b.rs", "x"));
    assert_ne!(sha256_hex("b.rs", "x"), sha256_hex("c.rs", "y"));
    assert_eq!(sha256_hex("f.txt", ""), "e4723ca56658f19de75afabcf457ff23fdef6ee3fc2f1d3d0db82484785e2c9c");
}

#[test]
fn exclusion_matches_whole_path_or_any_segment() {
    let patterns = vec!["node_modules".to_string(), "*.min.js".to_string(), "[".to_string()];
    assert!(should_exclude("node_modules", &patterns));
    assert!(should_exclude("web/node_modules/x/y.js", &patterns));
    assert!(should_exclude("dist/app.min.js", &patterns));
    assert!(!should_exclude("src/main.rs", &patterns));
    assert!(!should_exclude("src/main.rs", &Vec::new()));
    let full = vec!["build/*".to_string()];
    assert!(should_exclude("build/out.txt", &full));
}

#[test]
fn segments_drop_empty_pieces() {
    assert_eq!(path_segments("a//b/c/"), vec!["a".to_string(), "b".to_string(), "c".to_string()]);
    assert!(path_segments("").is_empty());
}

#[test]
fn extensions_are_case_insensitive_with_dot() {
    let exts = vec![".rs".to_string(), ".PY".to_string()];
    assert!(extension_admitted("src/main.rs", &exts));
    assert!(extension_admitted("src/MAIN.RS", &exts));
    assert!(extension_admitted("tool.py", &exts));
    assert!(!extension_admitted("notes.txt", &exts));
    assert!(!extension_admitted(".rs", &exts));
    assert!(!extension_admitted("Makefile", &exts));
    assert!(!extension_admitted("rs", &exts));
    let accented = vec![".ä".to_string()];
    assert!(extension_admitted("docs/notes.Ä", &accented));
}

#[test]
fn decoding_falls_back_to_legacy_encodings() {
    assert_eq!(read_text("héllo".as_bytes()), "héllo");
    assert_eq!(read_text(&[0xC4, 0xE3, 0xBA, 0xC3]), "你好");
    let blobs = file_blobs("g.txt", &[0xC4, 0xE3, 0xBA, 0xC3], 10);
    assert_eq!(blobs.len(), 1);
    assert_eq!(blobs[0].content, "你好");
}

#[test]
fn entry_decisions_follow_the_order_of_checks() {
    let exts = vec![".rs".to_string()];
    let pats = vec!["target".to_string()];
    assert_eq!(entry_action("src/a.rs", false, true, &exts, &pats), EntryAction::Skip);
    assert_eq!(entry_action("target", true, false, &exts, &pats), EntryAction::Skip);
    assert_eq!(entry_action("src", true, false, &exts, &pats), EntryAction::Descend);
    assert_eq!(entry_action("src/a.rs", false, false, &exts, &pats), EntryAction::Index);
    assert_eq!(entry_action("src/a.md", false, false, &exts, &pats), EntryAction::Skip);
}

#[test]
fn identities_are_sixty_four_hex_digits() {
    let id = sha256_hex("p", "c");
    assert_eq!(id.len(), 64);
    assert!(id.chars().all(|c| c.is_ascii_hexdigit() && !c.is_ascii_uppercase()));
}
