use find_zero_files::candidates::is_candidate;
use find_zero_files::classifier::{is_all_zeroes, Classifier};
use find_zero_files::digits::u64_to_dec;
use find_zero_files::report::{found_line, report, select_zero, summary_line};

fn zeros(n: usize) -> Vec<u8> {
    vec![0u8; n]
}

#[test]
fn all_zero_sizes_around_chunk_boundaries() {
    for n in [1usize, 63, 64, 65, 100, 1024, 1088, 1089] {
        assert!(is_all_zeroes(&zeros(n)), "size {} should classify all-zero", n);
    }
}

#[test]
fn nonzero_byte_anywhere_rejects() {
    for (len, at) in [
        (50usize, 0usize),
        (50, 10),
        (50, 49),
        (65, 64),
        (1088, 64),
        (1088, 1087),
        (2000, 1999),
    ] {
        let mut v = zeros(len);
        v[at] = 1;
        assert!(!is_all_zeroes(&v), "len {} nonzero at {} should reject", len, at);
    }
}

#[test]
fn empty_content_classifies_all_zero() {
    // Size-0 files never become candidates; the classifier itself,
    // seeing no bytes, reports nothing non-zero.
    assert!(is_all_zeroes(&zeros(0)));
}

#[test]
fn classifier_reads_probe_then_bulk() {
    let mut c = Classifier::new();
    assert_eq!(c.next_read_len(), 64);
    assert!(!c.is_finished());
    c.feed(&zeros(64), 64);
    assert_eq!(c.next_read_len(), 1024);
    assert!(!c.is_finished());
    c.feed(&zeros(1024), 1024);
    assert_eq!(c.next_read_len(), 1024);
    c.feed(&zeros(1024), 0);
    assert!(c.is_finished());
    assert_eq!(c.next_read_len(), 0);
    assert!(c.verdict());
}

#[test]
fn classifier_stops_after_dirty_probe() {
    let mut c = Classifier::new();
    let mut probe = zeros(64);
    probe[63] = 0xff;
    c.feed(&probe, 64);
    assert!(c.is_finished());
    assert_eq!(c.next_read_len(), 0);
    assert!(!c.verdict());
}

#[test]
fn classifier_short_probe_then_eof() {
    // A 10-byte file: the probe read returns 10 bytes, the next read 0.
    let mut c = Classifier::new();
    let buf = zeros(64);
    c.feed(&buf, 10);
    assert!(!c.is_finished());
    c.feed(&buf, 0);
    assert!(c.is_finished());
    assert!(c.verdict());
}

#[test]
fn classifier_rejects_in_bulk_stage() {
    let mut c = Classifier::new();
    c.feed(&zeros(64), 64);
    let mut bulk = zeros(1024);
    bulk[500] = 3;
    c.feed(&bulk, 1024);
    assert!(c.is_finished());
    assert!(!c.verdict());
}

#[test]
fn candidate_filter() {
    assert!(!is_candidate(true, 0));
    assert!(!is_candidate(false, 0));
    assert!(!is_candidate(false, 4096));
    assert!(is_candidate(true, 1));
    assert!(is_candidate(true, u64::MAX));
}

#[test]
fn decimal_rendering() {
    assert_eq!(u64_to_dec(0), "0");
    assert_eq!(u64_to_dec(7), "7");
    assert_eq!(u64_to_dec(10), "10");
    assert_eq!(u64_to_dec(203), "203");
    assert_eq!(u64_to_dec(18446744073709551615), "18446744073709551615");
}

#[test]
fn diagnostic_lines() {
    assert_eq!(found_line(3), "Found 3 files to consider");
    assert_eq!(found_line(0), "Found 0 files to consider");
    assert_eq!(summary_line(2, 3), "2 zero-byte files out of 3");
    assert_eq!(summary_line(0, 0), "0 zero-byte files out of 0");
}

fn scenario_tree() -> (Vec<String>, Vec<bool>) {
    // The candidates of a tree holding `a` (size 0, excluded before
    // classification), `b` (64 zero bytes), `c` (100 zero bytes) and
    // `d` (50 bytes, one non-zero at offset 10).
    assert!(!is_candidate(true, 0));
    let contents: Vec<(&str, Vec<u8>)> = vec![
        ("b", zeros(64)),
        ("c", zeros(100)),
        ("d", {
            let mut v = zeros(50);
            v[10] = 9;
            v
        }),
    ];
    let mut paths: Vec<String> = Vec::new();
    let mut zero: Vec<bool> = Vec::new();
    for (path, bytes) in contents.iter() {
        assert!(is_candidate(true, bytes.len() as u64));
        paths.push(path.to_string());
        zero.push(is_all_zeroes(bytes));
    }
    (paths, zero)
}

#[test]
fn scenario_reports_b_and_c() {
    let (paths, zero) = scenario_tree();
    assert_eq!(zero, vec![true, true, false]);
    let r = report(&paths, &zero, false);
    assert_eq!(r.zero_paths, vec!["b".to_string(), "c".to_string()]);
    assert!(r.to_delete.is_empty());
    assert_eq!(r.summary, "2 zero-byte files out of 3");
    assert_eq!(found_line(paths.len() as u64), "Found 3 files to consider");
}

#[test]
fn scenario_with_delete_removes_b_and_c() {
    let (paths, zero) = scenario_tree();
    let r = report(&paths, &zero, true);
    assert_eq!(r.zero_paths, vec!["b".to_string(), "c".to_string()]);
    assert_eq!(r.to_delete, r.zero_paths);
    assert_eq!(r.summary, "2 zero-byte files out of 3");
}

#[test]
fn two_runs_report_identically() {
    let (paths, zero) = scenario_tree();
    let first = report(&paths, &zero, false);
    let second = report(&paths, &zero, false);
    assert_eq!(first.zero_paths, second.zero_paths);
    assert_eq!(first.summary, second.summary);
}

#[test]
fn summary_counts_bounded() {
    for (paths, zero) in [
        (Vec::<String>::new(), Vec::<bool>::new()),
        (vec!["p".to_string()], vec![true]),
        (vec!["p".to_string(), "q".to_string()], vec![false, true]),
        (
            vec!["p".to_string(), "q".to_string(), "r".to_string()],
            vec![true, true, true],
        ),
    ] {
        let selected = select_zero(&paths, &zero);
        assert!(selected.len() <= paths.len());
    }
}

#[test]
fn nested_path_reported_like_any_other() {
    let paths = vec!["deep/ly/nest/ed/file".to_string(), "shallow".to_string()];
    let zero = vec![true, true];
    let r = report(&paths, &zero, false);
    assert_eq!(r.zero_paths, paths);
    assert_eq!(r.summary, "2 zero-byte files out of 2");
}
