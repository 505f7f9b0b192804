use flat_backup::session::{CopySession, Phase};

fn listed(names: &[&str], dest_dir: &str) -> CopySession {
    let mut s = CopySession::begin(String::from(dest_dir));
    s.listing_succeeded(names.iter().map(|n| String::from(*n)).collect());
    s
}

#[test]
fn full_run_copies_every_entry_in_order() {
    let mut s = listed(&["x.txt", "y.txt"], "/dst/");
    assert!(matches!(s.phase(), Phase::Copying));

    let job = s.next_job().unwrap();
    assert_eq!(job.source_name, "x.txt");
    assert_eq!(job.dest_path, "/dst/x.txt");
    s.job_succeeded();

    let job = s.next_job().unwrap();
    assert_eq!(job.source_name, "y.txt");
    assert_eq!(job.dest_path, "/dst/y.txt");
    s.job_succeeded();

    assert!(s.next_job().is_none());
    assert!(matches!(s.phase(), Phase::Completed));
    assert_eq!(s.copied_count(), 2);
}

#[test]
fn failure_midway_keeps_earlier_copies_and_skips_later_entries() {
    let mut s = listed(&["a", "b", "c"], "/out/");

    let job = s.next_job().unwrap();
    assert_eq!(job.dest_path, "/out/a");
    s.job_succeeded();

    let job = s.next_job().unwrap();
    assert_eq!(job.dest_path, "/out/b");
    s.job_failed();

    assert!(matches!(s.phase(), Phase::Aborted));
    assert_eq!(s.copied_count(), 1);
}

#[test]
fn missing_source_aborts_before_any_write() {
    let mut s = CopySession::begin(String::from("/dst/"));
    s.listing_failed();
    assert!(matches!(s.phase(), Phase::Aborted));
    assert_eq!(s.copied_count(), 0);
}

#[test]
fn empty_listing_completes_with_no_work() {
    let mut s = listed(&[], "/dst/");
    assert!(s.next_job().is_none());
    assert!(matches!(s.phase(), Phase::Completed));
    assert_eq!(s.copied_count(), 0);
}

#[test]
fn destination_without_separator_runs_paths_together() {
    let mut s = listed(&["file.txt"], "/backup");
    let job = s.next_job().unwrap();
    assert_eq!(job.dest_path, "/backupfile.txt");
}
