use cunzhi::chunking::BlobItem;
use cunzhi::identity::sha256_hex;
use cunzhi::incremental::{plan_upload, UploadRun};
use cunzhi::indexing::{check_collected, finish_run, IndexError};
use cunzhi::projects::{to_forward_slashes, ProjectIndex};

fn blob(p: &str, c: &str) -> BlobItem {
    BlobItem { path: p.to_string(), content: c.to_string() }
}

fn three() -> Vec<BlobItem> {
    vec![blob("a.rs", "fn main() {}\n"), blob("b.rs", "x"), blob("c.rs", "y")]
}

#[test]
fn first_run_uploads_three_blobs_in_one_batch() {
    let blobs = three();
    let plan = plan_upload(&blobs, &Vec::new());
    assert!(plan.existing.is_empty());
    assert_eq!(plan.new_blobs.len(), 3);
    let mut run = UploadRun::new(plan, 10);
    assert_eq!(run.total_batches(), 1);
    assert!(run.has_pending());
    let batch = run.current_batch();
    assert_eq!(batch.len(), 3);
    run.record(Some(vec!["n1".to_string(), "n2".to_string(), "n3".to_string()]));
    assert!(!run.has_pending());
    let ids = finish_run(&Vec::new(), &run.confirmed).unwrap();
    let mut expected: Vec<String> = blobs.iter().map(|b| sha256_hex(&b.path, &b.content)).collect();
    let mut got = ids.clone();
    expected.sort();
    got.sort();
    assert_eq!(got, expected);

    let mut index = ProjectIndex::new();
    index.set_ids("/p", ids.clone());
    assert_eq!(index.known_ids("/p"), ids);
}

#[test]
fn second_run_without_changes_uploads_nothing() {
    let blobs = three();
    let known: Vec<String> = blobs.iter().map(|b| sha256_hex(&b.path, &b.content)).collect();
    let plan = plan_upload(&blobs, &known);
    assert_eq!(plan.existing.len(), 3);
    assert!(plan.new_blobs.is_empty());
    let existing = plan.existing.clone();
    let run = UploadRun::new(plan, 10);
    assert_eq!(run.total_batches(), 0);
    assert!(!run.has_pending());
    let ids = finish_run(&existing, &run.confirmed).unwrap();
    assert_eq!(ids, known);
}

#[test]
fn deleted_file_leaves_the_set_without_upload() {
    let blobs = three();
    let known: Vec<String> = blobs.iter().map(|b| sha256_hex(&b.path, &b.content)).collect();
    let remaining = vec![blob("a.rs", "fn main() {}\n"), blob("c.rs", "y")];
    let plan = plan_upload(&remaining, &known);
    assert!(plan.new_blobs.is_empty());
    assert_eq!(plan.existing.len(), 2);
    assert!(!plan.existing.contains(&known[1]));
}

#[test]
fn failed_batch_does_not_stop_later_ones() {
    let plan = plan_upload(&three(), &Vec::new());
    let mut run = UploadRun::new(plan, 1);
    assert_eq!(run.total_batches(), 3);
    run.record(None);
    assert!(run.has_pending());
    assert_eq!(run.next_batch, 1);
    assert_eq!(run.current_batch().len(), 1);
    run.record(Some(Vec::new()));
    run.record(Some(vec!["ok".to_string()]));
    assert!(!run.has_pending());
    assert_eq!(run.failed_batches, vec![1, 2]);
    assert_eq!(run.confirmed.len(), 1);
    assert_eq!(run.confirmed[0], run.ids[2]);
}

#[test]
fn duplicate_blobs_are_planned_once() {
    let blobs = vec![blob("a.rs", "x"), blob("a.rs", "x")];
    let plan = plan_upload(&blobs, &Vec::new());
    assert_eq!(plan.new_blobs.len(), 1);
    assert_eq!(plan.new_ids[0], sha256_hex("a.rs", "x"));
}

#[test]
fn batches_split_by_size() {
    let blobs: Vec<BlobItem> = (0..7).map(|i| blob(&format!("f{}.rs", i), "z")).collect();
    let plan = plan_upload(&blobs, &Vec::new());
    let mut run = UploadRun::new(plan, 3);
    assert_eq!(run.total_batches(), 3);
    let mut sizes = Vec::new();
    while run.has_pending() {
        sizes.push(run.current_batch().len());
        run.record(Some(vec!["n".to_string()]));
    }
    assert_eq!(sizes, vec![3, 3, 1]);
    assert_eq!(run.confirmed.len(), 7);
}

#[test]
fn empty_scan_and_empty_result_are_errors() {
    assert!(matches!(check_collected(&Vec::new()), Err(IndexError::NoIndexableFiles)));
    assert!(check_collected(&three()).is_ok());
    assert!(matches!(finish_run(&Vec::new(), &Vec::new()), Err(IndexError::NoBlobsAfterIndexing)));
}

#[test]
fn project_index_overwrites_one_root() {
    let mut index = ProjectIndex::new();
    assert!(index.known_ids("/a").is_empty());
    index.set_ids("/a", vec!["1".to_string()]);
    index.set_ids("/b", vec!["2".to_string()]);
    index.set_ids("/a", vec!["3".to_string(), "4".to_string()]);
    assert_eq!(index.entries.len(), 2);
    assert_eq!(index.known_ids("/a"), vec!["3".to_string(), "4".to_string()]);
    assert_eq!(index.known_ids("/b"), vec!["2".to_string()]);
    assert_eq!(to_forward_slashes("C:\\Users\\me\\proj"), "C:/Users/me/proj");
}
