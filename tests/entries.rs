use s3_unzip::entry::{destination_key, is_directory, EntryExtraction};
use s3_unzip::error::{new_invalid_input_error, ErrorKind};
use s3_unzip::job::{Phase, UnzipJob};
use s3_unzip::preflight::{check_bucket_in_list, check_object_exists, is_listed};

fn names(v: &[&str]) -> Vec<String> {
    v.iter().map(|s| s.to_string()).collect()
}

#[test]
fn destination_key_joins_prefix_and_path() {
    assert_eq!(destination_key("out/", "a/b.txt"), "out/a/b.txt");
    assert_eq!(destination_key("", "a/b.txt"), "a/b.txt");
    assert_eq!(destination_key("/", "c.txt"), "/c.txt");
}

#[test]
fn directory_names_end_with_a_separator() {
    assert!(is_directory("dir/"));
    assert!(is_directory("a/b/"));
    assert!(!is_directory("a/b"));
    assert!(!is_directory(""));
}

#[test]
fn entry_is_filled_to_its_declared_size() {
    let mut e = EntryExtraction::begin(&"x/".to_string(), &"a.txt".to_string(), Some("a.txt".to_string()), 5).unwrap();
    assert_eq!(e.remaining(), 5);
    assert_eq!(e.absorb(b"hel").unwrap(), false);
    assert_eq!(e.remaining(), 2);
    assert_eq!(e.absorb(b"lo").unwrap(), true);
    assert!(e.is_complete());
    let (key, body) = e.finish().unwrap();
    assert_eq!(key, "x/a.txt");
    assert_eq!(body, b"hello".to_vec());
}

#[test]
fn short_entry_is_a_decode_error() {
    let mut e = EntryExtraction::begin(&"".to_string(), &"a.txt".to_string(), Some("a.txt".to_string()), 5).unwrap();
    assert_eq!(e.absorb(b"abc").unwrap(), false);
    let err = e.absorb(b"").unwrap_err();
    assert_eq!(err.kind, ErrorKind::Decode);
}

#[test]
fn empty_and_directory_entries_are_skipped() {
    let e = EntryExtraction::begin(&"x/".to_string(), &"dir/".to_string(), Some("dir".to_string()), 0).unwrap();
    assert!(e.is_complete());
    assert!(e.finish().is_none());

    let e = EntryExtraction::begin(&"x/".to_string(), &"empty.txt".to_string(), Some("empty.txt".to_string()), 0).unwrap();
    assert!(e.finish().is_none());

    let mut e = EntryExtraction::begin(&"x/".to_string(), &"odd/".to_string(), Some("odd".to_string()), 2).unwrap();
    assert_eq!(e.absorb(b"zz").unwrap(), true);
    assert!(e.finish().is_none());
}

#[test]
fn unsafe_path_is_a_path_error() {
    let r = EntryExtraction::begin(&"x/".to_string(), &"../evil".to_string(), None, 3);
    assert_eq!(r.err().unwrap().kind, ErrorKind::Path);
    // A skipped entry needs no key.
    assert!(EntryExtraction::begin(&"x/".to_string(), &"../dir/".to_string(), None, 0).is_ok());
}

#[test]
fn bucket_check_follows_the_listing() {
    let list = names(&["alpha", "bucket", "gamma"]);
    assert!(check_bucket_in_list(&list, &"bucket".to_string()).is_ok());
    let err = check_bucket_in_list(&list, &"missing".to_string()).unwrap_err();
    assert_eq!(err.kind, ErrorKind::NotFound);
    assert_eq!(err.to_string(), "Bucket missing is not available!");
    assert!(check_bucket_in_list(&Vec::new(), &"bucket".to_string()).is_err());
}

#[test]
fn object_check_follows_the_listing() {
    let list = names(&["archive.zip", "other.zip"]);
    assert!(check_object_exists(&list, &"archive.zip".to_string()).is_ok());
    let err = check_object_exists(&list, &"archive".to_string()).unwrap_err();
    assert_eq!(err.kind, ErrorKind::NotFound);
    assert!(is_listed(&list, &"other.zip".to_string()));
    assert!(!is_listed(&list, &"".to_string()));
}

#[test]
fn invalid_input_error_keeps_its_text() {
    let e = new_invalid_input_error("usage: bucket zip".to_string());
    assert_eq!(e.kind, ErrorKind::InvalidInput);
    assert_eq!(e.message, "usage: bucket zip");
}

#[test]
fn absent_bucket_fails_before_any_transfer() {
    let mut job = UnzipJob::new("bucket".to_string(), "archive.zip".to_string(), "x/".to_string());
    assert_eq!(job.phase(), Phase::Start);
    job.start();
    assert_eq!(job.phase(), Phase::Validating);
    let r = job.on_bucket_list(&names(&["other"]));
    assert_eq!(r.err().unwrap().kind, ErrorKind::NotFound);
    assert_eq!(job.phase(), Phase::Failed);
}

#[test]
fn job_runs_through_its_phases() {
    let mut job = UnzipJob::new("bucket".to_string(), "archive.zip".to_string(), "x/".to_string());
    job.start();
    job.on_bucket_list(&names(&["bucket"])).unwrap();
    assert_eq!(job.phase(), Phase::Validating);
    let reader = job.on_object_list(&names(&["archive.zip"])).unwrap();
    assert_eq!(reader.object_name(), "archive.zip");
    assert_eq!(job.phase(), Phase::Extracting);
    let e = job.on_entry(&"a.txt".to_string(), Some("a.txt".to_string()), 0).unwrap();
    assert_eq!(e.size(), 0);
    assert!(job.on_entry(&"b".to_string(), None, 1).is_err());
    assert_eq!(job.phase(), Phase::Failed);

    let mut job = UnzipJob::new("bucket".to_string(), "archive.zip".to_string(), "".to_string());
    job.start();
    job.on_bucket_list(&names(&["bucket"])).unwrap();
    job.on_object_list(&names(&["archive.zip"])).unwrap();
    job.on_end();
    assert_eq!(job.phase(), Phase::Done);
}

#[test]
fn absent_archive_fails_the_preflight() {
    let mut job = UnzipJob::new("bucket".to_string(), "archive.zip".to_string(), "".to_string());
    job.start();
    job.on_bucket_list(&names(&["bucket"])).unwrap();
    let r = job.on_object_list(&names(&["other.zip"]));
    assert_eq!(r.err().unwrap().kind, ErrorKind::NotFound);
    assert_eq!(job.phase(), Phase::Failed);
}
