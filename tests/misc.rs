use sprt::assets::{is_asset, is_jpeg_or_png, text_ends_with};
use sprt::cli::WatchService;
use sprt::config::PipelineNames;
use sprt::guard::{LockStore, MarkerState};
use sprt::status::{preflight, status_from_name, Decision, PipelineStatus};
use sprt::watch::{start_watch, StartRefusal};

#[test]
fn preflight_not_in_progress_creates_no_marker() {
    let mut store = LockStore::new("/tmp/watch");
    let p = String::from("deploy");
    let r = start_watch(&mut store, &p, &PipelineStatus::Succeeded);
    assert!(matches!(r, Err(StartRefusal::NotInProgress)));
    assert!(matches!(store.state_of(&p), MarkerState::Absent));
    let r = start_watch(&mut store, &p, &PipelineStatus::Failed);
    assert!(matches!(r, Err(StartRefusal::NotInProgress)));
    let r = start_watch(&mut store, &p, &PipelineStatus::Other(String::from("Stopped")));
    assert!(matches!(r, Err(StartRefusal::NotInProgress)));
    assert!(matches!(store.state_of(&p), MarkerState::Absent));
}

#[test]
fn start_watch_in_progress_places_marker() {
    let mut store = LockStore::new("/tmp/watch");
    let p = String::from("deploy");
    let paths = start_watch(&mut store, &p, &PipelineStatus::InProgress).ok().unwrap();
    assert_eq!(paths.stdout_log, "/tmp/watch/deploy/daemon.stdout.log");
    assert!(matches!(store.state_of(&p), MarkerState::Present(_)));
    let again = start_watch(&mut store, &p, &PipelineStatus::InProgress);
    assert!(matches!(again, Err(StartRefusal::AlreadyWatching)));
}

#[test]
fn preflight_decisions() {
    assert_eq!(preflight(&PipelineStatus::InProgress), Decision::Proceed);
    assert_eq!(preflight(&PipelineStatus::Succeeded), Decision::NotInProgress);
    assert_eq!(preflight(&PipelineStatus::Failed), Decision::NotInProgress);
}

#[test]
fn status_names() {
    assert!(matches!(status_from_name("InProgress"), PipelineStatus::InProgress));
    assert!(matches!(status_from_name("Succeeded"), PipelineStatus::Succeeded));
    assert!(matches!(status_from_name("Failed"), PipelineStatus::Failed));
    assert!(matches!(status_from_name("Stopped"), PipelineStatus::Other(n) if n == "Stopped"));
    assert!(status_from_name("InProgress").is_in_progress());
}

#[test]
fn asset_names() {
    assert!(is_asset(Some("logo.png")));
    assert!(is_asset(Some("photo.jpeg")));
    assert!(is_asset(Some("a.mp3")));
    assert!(is_asset(Some("abpng")));
    assert!(is_asset(Some("a.png")));
    assert!(!is_asset(Some("apng")));
    assert!(!is_asset(Some("main.rs")));
    assert!(!is_asset(Some("icon.gif")));
    assert!(!is_asset(None));
}

#[test]
fn image_extensions() {
    assert!(is_jpeg_or_png("png"));
    assert!(is_jpeg_or_png("jpg"));
    assert!(is_jpeg_or_png("jpeg"));
    assert!(!is_jpeg_or_png("PNG"));
    assert!(!is_jpeg_or_png("webp"));
}

#[test]
fn suffixes() {
    assert!(text_ends_with("hello", "llo"));
    assert!(text_ends_with("hello", ""));
    assert!(!text_ends_with("lo", "hello"));
    assert!(!text_ends_with("hello", "lp"));
}

fn names() -> PipelineNames {
    let n = |s: &str| String::from(s);
    PipelineNames {
        online: n("online"),
        online_test: n("online-test"),
        swc: n("swc"),
        swc_test: n("swc-test"),
        hhv2: n("hhv2"),
        hhv2_test: n("hhv2-test"),
        nbc: n("nbc"),
        nbc_test: n("nbc-test"),
        intellipick: n("intellipick"),
        intellipick_test: n("intellipick-test"),
        h99: n("h99"),
        h99_test: n("h99-test"),
    }
}

#[test]
fn service_maps_to_pipeline() {
    let p = names();
    assert_eq!(p.name_for(WatchService::Online), "online");
    assert_eq!(p.name_for(WatchService::SwcTest), "swc-test");
    assert_eq!(p.name_for(WatchService::H99Test), "h99-test");
    assert_eq!(p.name_for(WatchService::IntellipickTest), "intellipick-test");
}
