use easy_server::config::ServerConfig;
use easy_server::exchange::{Action, Event, Exchange, Method, Phase};
use easy_server::listing::{render_listing, EntryInfo};

fn begin(method: Method, uri: &str) -> (Exchange, Action) {
    Exchange::start(&ServerConfig::new("/srv".to_string()), method, uri.to_string())
}

#[test]
fn found_file_is_sent_as_served() {
    let (mut x, a) = begin(Method::Get, "/hello.txt");
    assert!(matches!(a, Action::ServeStatic));
    assert!(matches!(x.step(Event::StaticResponse { status: 200 }), Action::SendStatic));
    assert_eq!(x.phase(), Phase::Finished);
}

#[test]
fn static_error_is_sent_as_served() {
    let (mut x, _) = begin(Method::Get, "/secret");
    assert!(matches!(x.step(Event::StaticResponse { status: 500 }), Action::SendStatic));
    assert_eq!(x.phase(), Phase::Finished);
}

#[test]
fn missing_path_gets_not_found() {
    let (mut x, _) = begin(Method::Get, "/nothing");
    match x.step(Event::StaticResponse { status: 404 }) {
        Action::CheckDir { path } => assert_eq!(path, "/srv/nothing"),
        other => panic!("unexpected {:?}", other),
    }
    assert!(matches!(x.step(Event::DirChecked { is_dir: false }), Action::SendStatic));
    assert_eq!(x.phase(), Phase::Finished);
}

#[test]
fn directory_is_listed() {
    let (mut x, _) = begin(Method::Head, "/my%20dir/");
    match x.step(Event::StaticResponse { status: 404 }) {
        Action::CheckDir { path } => assert_eq!(path, "/srv/my dir/"),
        other => panic!("unexpected {:?}", other),
    }
    assert!(matches!(x.step(Event::DirChecked { is_dir: true }), Action::ReadNextEntry));
    let ev = Event::Entry { name: "sub".to_string(), is_dir: true };
    assert!(matches!(x.step(ev), Action::ReadNextEntry));
    let ev = Event::Entry { name: "f.txt".to_string(), is_dir: false };
    assert!(matches!(x.step(ev), Action::ReadNextEntry));
    let expected = render_listing(&vec![
        EntryInfo::new("sub".to_string(), true),
        EntryInfo::new("f.txt".to_string(), false),
    ]);
    match x.step(Event::EntriesEnd) {
        Action::SendListing { html } => {
            assert_eq!(html, expected);
            assert_eq!(html.matches("<li").count(), 2);
        }
        other => panic!("unexpected {:?}", other),
    }
    assert_eq!(x.phase(), Phase::Finished);
}

#[test]
fn listing_ignores_root_and_path() {
    let run = |root: &str, uri: &str| {
        let (mut x, _) = Exchange::start(&ServerConfig::new(root.to_string()), Method::Get, uri.to_string());
        x.step(Event::StaticResponse { status: 404 });
        x.step(Event::DirChecked { is_dir: true });
        x.step(Event::Entry { name: "a".to_string(), is_dir: false });
        match x.step(Event::EntriesEnd) {
            Action::SendListing { html } => html,
            other => panic!("unexpected {:?}", other),
        }
    };
    assert_eq!(run("/srv", "/x/"), run("/other", "/y/z/"));
}

#[test]
fn enumeration_failure_still_answers() {
    let (mut x, _) = begin(Method::Get, "/locked/");
    x.step(Event::StaticResponse { status: 404 });
    x.step(Event::DirChecked { is_dir: true });
    x.step(Event::Entry { name: "a".to_string(), is_dir: false });
    assert!(matches!(x.step(Event::EntriesFailed), Action::SendStatic));
    assert_eq!(x.phase(), Phase::Finished);
}

#[test]
fn other_method_miss_is_not_listed() {
    let (mut x, a) = begin(Method::Other, "/dir/");
    assert!(matches!(a, Action::ServeStatic));
    assert!(matches!(x.step(Event::StaticResponse { status: 404 }), Action::SendStatic));
}

#[test]
fn upload_writes_into_addressed_directory() {
    let (mut x, a) = begin(Method::Post, "/uploads/");
    assert!(matches!(a, Action::ReadUploadField));
    let ev = Event::UploadField { file_name: Some("hello.txt".to_string()) };
    match x.step(ev) {
        Action::WriteUpload { path } => assert_eq!(path, "/srv/uploads/hello.txt"),
        other => panic!("unexpected {:?}", other),
    }
    assert!(matches!(x.step(Event::WriteFinished { ok: true }), Action::SendUploaded));
    assert_eq!(x.phase(), Phase::Finished);
}

#[test]
fn repeated_upload_targets_same_file() {
    let target = || {
        let (mut x, _) = begin(Method::Post, "/uploads/");
        match x.step(Event::UploadField { file_name: Some("hello.txt".to_string()) }) {
            Action::WriteUpload { path } => path,
            other => panic!("unexpected {:?}", other),
        }
    };
    assert_eq!(target(), target());
}

#[test]
fn upload_without_file_name_fails() {
    let (mut x, _) = begin(Method::Post, "/uploads/");
    let ev = Event::UploadField { file_name: None };
    assert!(matches!(x.step(ev), Action::SendUploadFailed));
    assert_eq!(x.phase(), Phase::Finished);
}

#[test]
fn upload_without_field_fails() {
    let (mut x, _) = begin(Method::Post, "/uploads/");
    assert!(matches!(x.step(Event::UploadUnreadable), Action::SendUploadFailed));
}

#[test]
fn failed_write_reports_upload_failure() {
    let (mut x, _) = begin(Method::Post, "/uploads/");
    x.step(Event::UploadField { file_name: Some("a.bin".to_string()) });
    assert!(matches!(x.step(Event::WriteFinished { ok: false }), Action::SendUploadFailed));
}

#[test]
fn post_skips_static_service() {
    let (x, a) = begin(Method::Post, "/hello.txt");
    assert!(matches!(a, Action::ReadUploadField));
    assert_eq!(x.phase(), Phase::AwaitUpload);
}

#[test]
fn out_of_phase_event_changes_nothing() {
    let (mut x, _) = begin(Method::Get, "/a");
    assert!(matches!(x.step(Event::EntriesEnd), Action::Unexpected));
    assert_eq!(x.phase(), Phase::AwaitStatic);
    x.step(Event::StaticResponse { status: 200 });
    assert!(matches!(x.step(Event::StaticResponse { status: 404 }), Action::Unexpected));
    assert_eq!(x.phase(), Phase::Finished);
}
