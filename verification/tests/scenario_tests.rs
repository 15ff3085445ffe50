use gallery_fetch::config::Config;
use gallery_fetch::executor::{DownloadOutcome, ItemTask, TaskState};
use gallery_fetch::gallery::galleries_from_lines;
use gallery_fetch::summary::RunSummary;
use gallery_fetch::text::gallery_dir;

fn listing_page() -> String {
    let mut s = String::new();
    s.push_str("<html><body><h1 id=\"gn\">Test Gallery</h1>");
    s.push_str("<div id=\"gdt\">");
    s.push_str("<a href=\"https://example.com/item/1\">one</a>");
    s.push_str("<a href=\"https://example.com/item/2\">two</a>");
    s.push_str("</div>");
    s.push_str("<table class=\"ptt\"><tbody><tr><td>1</td><td>&gt;</td></tr></tbody></table>");
    s.push_str("</body></html>");
    s
}

fn item_page(n: usize) -> String {
    let mut s = String::new();
    s.push_str("<html><body><div id=\"i3\"><a href=\"#\"><img src=\"");
    s.push_str("https://example.com/img/");
    s.push_str(&n.to_string());
    s.push_str(".jpg\"></a></div></body></html>");
    s
}

/// One input line, a fixture gallery titled "Test Gallery" with 2 items,
/// preview mode, concurrency 2: the run writes `out/Test Gallery/1.jpg`
/// and `out/Test Gallery/2.jpg` and reports 1 gallery ok, 2 items
/// succeeded.
#[test]
fn one_gallery_two_items_preview_mode() {
    let config = Config {
        cookie: "token".to_string(),
        concurrency: 2,
        original: false,
        proxy: None,
        input: "list.txt".to_string(),
        output: "out".to_string(),
    };
    let lines = vec!["https://example.com/gallery".to_string()];
    let mut galleries = galleries_from_lines(&lines);
    assert_eq!(galleries.len(), 1);
    let g = &mut galleries[0];

    let listing = listing_page();
    assert!(g.apply_info_page(&listing).is_ok());
    assert_eq!(g.title, "Test Gallery");
    assert!(g.apply_listing_page(&listing).is_none());
    assert_eq!(g.images.len(), 2);

    let dir = gallery_dir(&config.output, &g.title);
    let mut summary = RunSummary::new();
    let mut written: Vec<String> = Vec::new();

    for i in 0..g.images.len() {
        let mut t = ItemTask::new(i, config.original, dir.clone());
        t.on_page(&item_page(i + 1));
        let outcome = loop {
            match &t.state {
                TaskState::AwaitingExists { .. } => t.on_exists(false),
                TaskState::AwaitingFetch { path, .. } => {
                    let p = path.clone();
                    t.on_fetch(true);
                    if matches!(t.state, TaskState::Done { outcome: DownloadOutcome::Succeeded }) {
                        written.push(p);
                    }
                },
                TaskState::Done { outcome } => break *outcome,
                other => panic!("unexpected state {:?}", other),
            }
        };
        summary.record_outcome(&outcome);
    }
    summary.record_gallery(true);

    assert_eq!(written, vec!["out/Test Gallery/1.jpg".to_string(), "out/Test Gallery/2.jpg".to_string()]);
    assert_eq!(summary.galleries_ok, 1);
    assert_eq!(summary.galleries_failed, 0);
    assert_eq!(summary.succeeded, 2);
    assert_eq!(summary.skipped, 0);
    assert_eq!(summary.failed, 0);
    assert!(!summary.run_failed());
}

/// Re-running over a completed gallery: every output file already exists,
/// so every outcome is `Skipped` and no download fetch is attempted.
#[test]
fn rerun_with_existing_files_skips_everything() {
    let mut summary = RunSummary::new();
    for i in 0..2usize {
        let mut t = ItemTask::new(i, false, "out/Test Gallery".to_string());
        t.on_page(&item_page(i + 1));
        assert!(matches!(t.state, TaskState::AwaitingExists { .. }));
        t.on_exists(true);
        match &t.state {
            TaskState::Done { outcome } => {
                assert_eq!(*outcome, DownloadOutcome::Skipped);
                summary.record_outcome(outcome);
            },
            other => panic!("unexpected state {:?}", other),
        }
        assert_eq!(t.attempts, 0);
    }
    summary.record_gallery(true);
    assert_eq!(summary.skipped, 2);
    assert_eq!(summary.succeeded, 0);
    assert_eq!(summary.failed, 0);
}
