use feroxbuster::pause::PauseController;
use feroxbuster::progress::ProgressBar;
use feroxbuster::registry::{FeroxResponse, FeroxResponses, FeroxScans};
use feroxbuster::scan::{FeroxScan, ScanType};
use feroxbuster::state::{resume_scan, state_filename, Configuration, FeroxState};

#[test]
/// add an unknown url to the registry, expect true
fn add_url_to_list_of_scanned_urls_with_unknown_url() {
    let mut urls = FeroxScans::default();
    let url = "http://unknown_url";
    let (result, _scan) = urls.add_scan(url, ScanType::Directory, 0);
    assert_eq!(result, true);
}

#[test]
/// add a known url to the registry, with a trailing slash, expect false
fn add_url_to_list_of_scanned_urls_with_known_url() {
    let mut urls = FeroxScans::default();
    let pb = ProgressBar::new(1);
    let url = "http://unknown_url/";
    let scan = FeroxScan::new(url, ScanType::Directory, Some(pb));

    assert_eq!(urls.insert(scan), true);

    let (result, _scan) = urls.add_scan(url, ScanType::Directory, 0);

    assert_eq!(result, false);
}

#[test]
/// abort should stop the progress bar, marking it as finished
fn abort_stops_progress_bar() {
    let pb = ProgressBar::new(1);
    let url = "http://unknown_url/";
    let mut scan = FeroxScan::new(url, ScanType::Directory, Some(pb));

    assert_eq!(scan.progress_bar.as_ref().unwrap().is_finished(), false);

    scan.abort();

    assert_eq!(scan.progress_bar.as_ref().unwrap().is_finished(), true);
}

#[test]
/// add a known url to the registry, without a trailing slash, expect false
fn add_url_to_list_of_scanned_urls_with_known_url_without_slash() {
    let mut urls = FeroxScans::default();
    let url = "http://unknown_url";
    let scan = FeroxScan::new(url, ScanType::File, None);

    assert_eq!(urls.insert(scan), true);

    let (result, _scan) = urls.add_scan(url, ScanType::File, 0);

    assert_eq!(result, false);
}

#[test]
/// just increasing coverage, no real expectations
fn call_display_scans() {
    let mut urls = FeroxScans::default();
    let pb = ProgressBar::new(1);
    let pb_two = ProgressBar::new(2);
    let url = "http://unknown_url/";
    let url_two = "http://unknown_url/fa";
    let scan = FeroxScan::new(url, ScanType::Directory, Some(pb));
    let mut scan_two = FeroxScan::new(url_two, ScanType::Directory, Some(pb_two));

    scan_two.finish(); // one complete, one incomplete

    assert_eq!(urls.insert(scan), true);

    urls.display_scans();
}

#[test]
/// ensure that equality compares FeroxScan.id fields
fn partial_eq_compares_the_id_field() {
    let url = "http://unknown_url/";
    let scan = FeroxScan::new(url, ScanType::Directory, None);
    let mut scan_two = FeroxScan::new(url, ScanType::Directory, None);

    assert!(!(scan == scan_two));

    scan_two.id = scan.id.clone();

    assert!(scan == scan_two);
}

#[test]
/// show that a new progress bar is created if one doesn't exist
fn ferox_scan_get_progress_bar_when_none_is_set() {
    let mut scan = FeroxScan::new("", ScanType::File, None);

    assert!(scan.progress_bar.is_none()); // no pb exists

    let pb = scan.progress_bar(0);

    assert!(scan.progress_bar.is_some()); // new pb created
    assert!(!pb.is_finished()) // not finished
}

#[test]
/// dedup is url-based: the first insert of a url reports true, every
/// later insert of the same url reports false whatever the scan type
fn dedup_is_url_based_regardless_of_type() {
    let mut urls = FeroxScans::default();

    let (first, _handle) = urls.add_directory_scan("http://example.test/", 0);
    assert_eq!(first, true);

    let (second, _handle) = urls.add_directory_scan("http://example.test/", 0);
    assert_eq!(second, false);

    let (third, _handle) = urls.add_file_scan("http://example.test/", 0);
    assert_eq!(third, false);
}

#[test]
/// two records constructed independently are unequal even with the same
/// url and type; contains and lookup go by url
fn contains_and_lookup_by_url() {
    let mut urls = FeroxScans::default();
    let scan = FeroxScan::new("http://one/", ScanType::Directory, None);
    urls.insert(scan);

    assert!(urls.contains("http://one/"));
    assert!(!urls.contains("http://two/"));

    let found = urls.get_scan_by_url("http://one/");
    assert!(found.is_some());
    assert_eq!(found.unwrap().url, "http://one/");
    assert!(urls.get_scan_by_url("http://two/").is_none());
}

#[test]
/// one directory-typed and one file-typed record inserted: the display
/// holds exactly one line, the directory record's
fn display_filters_file_scans() {
    let mut urls = FeroxScans::default();
    let dir_scan = FeroxScan::new("http://dir.test/", ScanType::Directory, None);
    let file_scan = FeroxScan::new("http://file.test/", ScanType::File, None);
    assert!(urls.insert(dir_scan));
    assert!(urls.insert(file_scan));

    let lines = urls.display_scans();
    assert_eq!(lines.len(), 1);
    assert_eq!(lines[0], "  0: incomplete http://dir.test/");
}

#[test]
/// a finished directory scan shows the complete status, padded as the
/// listing aligns it, at its registry index
fn display_shows_complete_status() {
    let mut urls = FeroxScans::default();
    let file_scan = FeroxScan::new("http://file.test/", ScanType::File, None);
    let mut dir_scan = FeroxScan::new("http://dir.test/", ScanType::Directory, None);
    dir_scan.finish();
    assert!(urls.insert(file_scan));
    assert!(urls.insert(dir_scan));

    let lines = urls.display_scans();
    assert_eq!(lines.len(), 1);
    assert_eq!(lines[0], "  1: complete   http://dir.test/");
}

#[test]
/// finishing twice leaves complete true and the bar finished, no error
fn finish_twice_is_idempotent() {
    let mut scan = FeroxScan::new("http://x/", ScanType::Directory, Some(ProgressBar::new(5)));
    scan.finish();
    scan.finish();
    assert!(scan.complete);
    assert!(scan.progress_bar.as_ref().unwrap().is_finished());
}

#[test]
/// responses insert unconditionally and contains matches by url
fn responses_insert_and_contains() {
    let mut responses = FeroxResponses::default();
    let resp = FeroxResponse { url: "http://resp.test/".to_string() };

    assert!(!responses.contains(&resp));
    responses.insert(resp.clone());
    assert!(responses.contains(&resp));

    // no uniqueness enforced by insert itself
    responses.insert(resp.clone());
    assert_eq!(responses.responses.len(), 2);
}

#[test]
/// a caller in the pause loop leaves exactly when the flag is cleared,
/// and the leader's barrier claim is handed back on leaving
fn pause_poll_leaves_only_when_flag_cleared() {
    let mut controller = PauseController::new();
    controller.set_paused(true);

    let interact = controller.pause_enter(true);
    assert!(interact); // first caller, input requested: the leader interacts
    assert_eq!(controller.barrier, 1);

    assert!(!controller.pause_poll()); // flag still set: must not leave
    assert!(!controller.pause_poll());

    controller.set_paused(false);
    assert!(controller.pause_poll()); // flag cleared: leaves
    assert_eq!(controller.barrier, 0);
    assert!(!controller.spinner_active);
}

#[test]
/// a second concurrent caller is no leader and does no interactive work
fn pause_second_caller_is_no_leader() {
    let mut controller = PauseController::new();
    controller.set_paused(true);

    assert!(controller.pause_enter(true));
    assert!(!controller.pause_enter(true)); // barrier already claimed
    assert_eq!(controller.barrier, 1);
}

#[test]
/// capturing a snapshot with response records, then restoring from that
/// text, reinserts every response and returns the captured configuration
fn snapshot_restore_round_trip() {
    let mut scans = FeroxScans::default();
    let mut done = FeroxScan::new("http://t.test/", ScanType::Directory, None);
    done.finish();
    scans.insert(done);
    scans.insert(FeroxScan::new("http://t.test/sub", ScanType::File, None));

    let mut responses = FeroxResponses::default();
    responses.insert(FeroxResponse { url: "http://t.test/a".to_string() });
    responses.insert(FeroxResponse { url: "http://t.test/b".to_string() });
    responses.insert(FeroxResponse { url: "http://t.test/c".to_string() });

    let config = Configuration { text: "{\"add_slash\":true,\"wordlist\":\"w.txt\"}".to_string() };

    let state = FeroxState { scans: &scans, config: &config, responses: &responses };
    let written = state.as_json();

    let mut fresh = FeroxResponses::default();
    let restored = resume_scan(written.as_str(), &mut fresh);

    let restored = restored.expect("a written snapshot must restore");
    assert_eq!(restored.text, config.text);
    assert_eq!(fresh.responses.len(), 3);
    assert_eq!(fresh.responses[0].url, "http://t.test/a");
    assert_eq!(fresh.responses[1].url, "http://t.test/b");
    assert_eq!(fresh.responses[2].url, "http://t.test/c");
}

#[test]
/// the round trip survives urls and configuration text that need quoting
fn snapshot_restore_round_trip_with_escapes() {
    let scans = FeroxScans::default();
    let mut responses = FeroxResponses::default();
    responses.insert(FeroxResponse { url: "http://t.test/a\"b\\c".to_string() });

    let config = Configuration { text: "{\"filter\":\"a\\\"b\"}".to_string() };
    let state = FeroxState { scans: &scans, config: &config, responses: &responses };
    let written = state.as_json();

    let mut fresh = FeroxResponses::default();
    let restored = resume_scan(written.as_str(), &mut fresh).expect("must restore");
    assert_eq!(restored.text, config.text);
    assert_eq!(fresh.responses.len(), 1);
    assert_eq!(fresh.responses[0].url, "http://t.test/a\"b\\c");
}

#[test]
/// an empty capture still round-trips: no responses, config intact
fn snapshot_restore_round_trip_empty() {
    let scans = FeroxScans::default();
    let responses = FeroxResponses::default();
    let config = Configuration { text: "{}".to_string() };
    let state = FeroxState { scans: &scans, config: &config, responses: &responses };
    let written = state.as_json();
    assert_eq!(written, "{\"scans\":[],\"responses\":[],\"config\":{}}");

    let mut fresh = FeroxResponses::default();
    let restored = resume_scan(written.as_str(), &mut fresh).expect("must restore");
    assert_eq!(restored.text, "{}");
    assert_eq!(fresh.responses.len(), 0);
}

#[test]
/// a malformed state file restores nothing and leaves the registry alone
fn resume_rejects_malformed_text() {
    let mut fresh = FeroxResponses::default();
    assert!(resume_scan("not a snapshot", &mut fresh).is_none());
    assert!(resume_scan("", &mut fresh).is_none());
    assert!(resume_scan("{\"scans\":[", &mut fresh).is_none());
    assert_eq!(fresh.responses.len(), 0);
}

#[test]
/// the interrupt handler names the state file after the epoch second
fn state_filename_uses_epoch_seconds() {
    assert_eq!(state_filename(1234567890), "ferox-1234567890.state");
    assert_eq!(state_filename(0), "ferox-0.state");
}

#[test]
/// indices align right in a three-column field once they grow past one digit
fn display_pads_indices_to_three_columns() {
    let mut urls = FeroxScans::default();
    for i in 0..11 {
        let url = format!("http://pad.test/{}", i);
        let (added, _handle) = urls.add_directory_scan(&url, 0);
        assert!(added);
    }
    let lines = urls.display_scans();
    assert_eq!(lines.len(), 11);
    assert_eq!(lines[9], "  9: incomplete http://pad.test/9");
    assert_eq!(lines[10], " 10: incomplete http://pad.test/10");
}
