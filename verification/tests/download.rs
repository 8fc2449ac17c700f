use chatgpt::download::{
    open_on_confirm, open_prompt_text, saved_name, DownloadAction, DownloadEvent, DownloadTracker,
};

fn request(destination: &str, dir: &str) -> DownloadEvent {
    DownloadEvent::Requested { destination: destination.to_string(), download_dir: dir.to_string() }
}

#[test]
fn request_is_saved_in_download_dir() {
    let mut tracker = DownloadTracker::new();
    assert_eq!(tracker.saved_path(), "");
    let action = tracker.handle(request("/var/cache/xyz/report.pdf", "/home/me/Downloads")).action;
    assert_eq!(action, DownloadAction::SaveTo { path: "/home/me/Downloads/report.pdf".to_string() });
    assert_eq!(tracker.saved_path(), "/home/me/Downloads/report.pdf");
}

#[test]
fn request_without_file_name_uses_fallback() {
    let mut tracker = DownloadTracker::new();
    let action = tracker.handle(request("/tmp/..", "/home/me/Downloads")).action;
    assert_eq!(
        action,
        DownloadAction::SaveTo { path: "/home/me/Downloads/downloaded_file.unknown".to_string() }
    );
}

#[test]
fn finished_offers_saved_file() {
    let mut tracker = DownloadTracker::new();
    tracker.handle(request("image.png", "/dl/"));
    assert_eq!(tracker.handle(DownloadEvent::Other).action, DownloadAction::Ignore);
    let action = tracker.handle(DownloadEvent::Finished { success: true }).action;
    assert_eq!(
        action,
        DownloadAction::OfferOpen {
            path: "/dl/image.png".to_string(),
            title: "Open File?".to_string(),
            message: "Download complete: image.png. Do you want to open it?".to_string(),
        }
    );
    assert_eq!(tracker.saved_path(), "/dl/image.png");
}

#[test]
fn failed_download_is_ignored() {
    let mut tracker = DownloadTracker::new();
    tracker.handle(request("a.txt", "/dl"));
    assert_eq!(tracker.handle(DownloadEvent::Finished { success: false }).action, DownloadAction::Ignore);
    assert_eq!(tracker.saved_path(), "/dl/a.txt");
}

#[test]
fn later_request_replaces_earlier() {
    let mut tracker = DownloadTracker::new();
    tracker.handle(request("a.txt", "/dl"));
    tracker.handle(request("b.txt", "/other"));
    match tracker.handle(DownloadEvent::Finished { success: true }).action {
        DownloadAction::OfferOpen { path, .. } => assert_eq!(path, "/other/b.txt"),
        other => panic!("unexpected {:?}", other),
    }
}

#[test]
fn finished_before_any_request() {
    let mut tracker = DownloadTracker::new();
    let action = tracker.handle(DownloadEvent::Finished { success: true }).action;
    assert_eq!(
        action,
        DownloadAction::OfferOpen {
            path: String::new(),
            title: "Open File?".to_string(),
            message: "Download complete: . Do you want to open it?".to_string(),
        }
    );
}

#[test]
fn dialog_answer() {
    assert_eq!(open_on_confirm(true, "/dl/a.txt"), Some("/dl/a.txt".to_string()));
    assert_eq!(open_on_confirm(false, "/dl/a.txt"), None);
}

#[test]
fn every_download_proceeds() {
    let mut tracker = DownloadTracker::new();
    assert!(tracker.handle(request("a.txt", "/dl")).proceed);
    assert!(tracker.handle(DownloadEvent::Finished { success: false }).proceed);
    assert!(tracker.handle(DownloadEvent::Other).proceed);
}

#[test]
fn name_fallback_and_prompt() {
    assert_eq!(saved_name(Some("x.zip".to_string())), "x.zip");
    assert_eq!(saved_name(None), "downloaded_file.unknown");
    assert_eq!(
        open_prompt_text(Some("x.zip".to_string())),
        "Download complete: x.zip. Do you want to open it?"
    );
    assert_eq!(open_prompt_text(None), "Download complete: . Do you want to open it?");
}
