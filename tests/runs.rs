use raw_exif_check::driver::{select_files, ListedEntry, Run, Step};

#[test]
fn only_regular_files_are_selected_in_listing_order() {
    let entries = vec![
        ListedEntry::File("dir/b.cr2".to_string()),
        ListedEntry::Other("dir/sub".to_string()),
        ListedEntry::File("dir/a.nef".to_string()),
    ];
    assert_eq!(select_files(&entries), vec!["dir/b.cr2".to_string(), "dir/a.nef".to_string()]);
}

#[test]
fn unreadable_entries_are_skipped() {
    let entries = vec![
        ListedEntry::Unreadable,
        ListedEntry::File("x.dng".to_string()),
        ListedEntry::Unreadable,
    ];
    assert_eq!(select_files(&entries), vec!["x.dng".to_string()]);
    assert!(select_files(&vec![]).is_empty());
}

/// Drives a run over `results`, the outcome each file would have, and returns
/// the positions of the files that were verified.
fn drive(results: &[bool]) -> (Vec<usize>, Step) {
    let mut run = Run::new(results.len());
    let mut visited = Vec::new();
    loop {
        match run.step() {
            Step::Verify(i) => {
                visited.push(i);
                run.record(results[i]);
            }
            other => return (visited, other),
        }
    }
}

#[test]
fn two_files_are_each_verified_once_in_order() {
    let entries = vec![
        ListedEntry::File("one".to_string()),
        ListedEntry::Other("subdir".to_string()),
        ListedEntry::File("two".to_string()),
    ];
    let files = select_files(&entries);
    let (visited, end) = drive(&vec![true; files.len()]);
    assert_eq!(visited, vec![0, 1]);
    assert_eq!(end, Step::Done);
}

#[test]
fn a_mismatch_stops_the_run() {
    let (visited, end) = drive(&[false, true, true]);
    assert_eq!(visited, vec![0]);
    assert_eq!(end, Step::Halted);
    let (visited, end) = drive(&[true, false, true]);
    assert_eq!(visited, vec![0, 1]);
    assert_eq!(end, Step::Halted);
}

#[test]
fn an_empty_run_is_done_at_once() {
    let run = Run::new(0);
    assert_eq!(run.step(), Step::Done);
    let run = Run::new(2);
    assert_eq!(run.step(), Step::Verify(0));
    assert_eq!(run, Run { total: 2, passed: 0, halted: false });
}
