use gallery_fetch::executor::{DownloadOutcome, FailReason, ItemTask, TaskState};

fn preview_page(src: &str) -> String {
    let mut s = String::new();
    s.push_str("<html><body><div id=\"i3\"><a href=\"#\"><img src=\"");
    s.push_str(src);
    s.push_str("\"></a></div></body></html>");
    s
}

fn original_page(src: &str, origin: &str) -> String {
    let mut s = String::new();
    s.push_str("<html><body><div id=\"i3\"><a href=\"#\"><img src=\"");
    s.push_str(src);
    s.push_str("\"></a></div><div id=\"i6\"><div>info</div><div><a href=\"");
    s.push_str(origin);
    s.push_str("\">original</a></div></div></body></html>");
    s
}

#[test]
fn existing_file_is_skipped_with_no_fetch() {
    let mut t = ItemTask::new(0, false, "out/Test Gallery".to_string());
    t.on_page(&preview_page("https://example.com/img/1.jpg"));
    match &t.state {
        TaskState::AwaitingExists { url, path } => {
            assert_eq!(url, "https://example.com/img/1.jpg");
            assert_eq!(path, "out/Test Gallery/1.jpg");
        },
        other => panic!("unexpected state {:?}", other),
    }
    t.on_exists(true);
    assert!(matches!(t.state, TaskState::Done { outcome: DownloadOutcome::Skipped }));
    assert_eq!(t.attempts, 0);
}

#[test]
fn download_succeeds_on_third_attempt() {
    let mut t = ItemTask::new(0, false, "out/g".to_string());
    t.on_page(&preview_page("https://example.com/img/1.jpg"));
    t.on_exists(false);
    t.on_fetch(false);
    t.on_fetch(false);
    assert!(matches!(t.state, TaskState::AwaitingFetch { attempt: 3, .. }));
    t.on_fetch(true);
    assert!(matches!(t.state, TaskState::Done { outcome: DownloadOutcome::Succeeded }));
    assert_eq!(t.attempts, 3);
}

#[test]
fn download_fails_after_three_attempts() {
    let mut t = ItemTask::new(0, false, "out/g".to_string());
    t.on_page(&preview_page("https://example.com/img/1.jpg"));
    t.on_exists(false);
    let mut succeeded_seen = false;
    for _ in 0..3 {
        succeeded_seen = succeeded_seen
            || matches!(t.state, TaskState::Done { outcome: DownloadOutcome::Succeeded });
        t.on_fetch(false);
    }
    assert!(!succeeded_seen);
    assert!(matches!(
        t.state,
        TaskState::Done { outcome: DownloadOutcome::Failed { reason: FailReason::FetchExhausted } }
    ));
    assert_eq!(t.attempts, 3);
}

#[test]
fn original_mode_probe_resolves_location() {
    let mut t = ItemTask::new(4, true, "out/g".to_string());
    t.on_page(&original_page("https://example.com/img/5.jpg", "https://example.com/fullimg/5"));
    match &t.state {
        TaskState::AwaitingProbe { origin } => {
            assert_eq!(origin, "https://example.com/fullimg/5");
        },
        other => panic!("unexpected state {:?}", other),
    }
    t.on_probe(302, Some("https://cdn.example.com/full/5.png".to_string()));
    match &t.state {
        TaskState::AwaitingExists { url, path } => {
            assert_eq!(url, "https://cdn.example.com/full/5.png");
            assert_eq!(path, "out/g/5.png");
        },
        other => panic!("unexpected state {:?}", other),
    }
}

#[test]
fn page_without_asset_fails_before_download() {
    let mut t = ItemTask::new(0, true, "out/g".to_string());
    t.on_page("<html><body><p>gone</p></body></html>");
    assert!(matches!(
        t.state,
        TaskState::Done { outcome: DownloadOutcome::Failed { reason: FailReason::NoAsset } }
    ));
    assert_eq!(t.attempts, 0);
}

#[test]
fn unavailable_page_fails_before_download() {
    let mut t = ItemTask::new(0, false, "out/g".to_string());
    t.on_page_unavailable();
    assert!(matches!(
        t.state,
        TaskState::Done {
            outcome: DownloadOutcome::Failed { reason: FailReason::PageUnavailable },
        }
    ));
    assert_eq!(t.attempts, 0);
}
