use eco_clipboard::commands;
use eco_clipboard::commands::WatcherAction;
use eco_clipboard::manager::{ClipboardManager, Platform};
use eco_clipboard::request::{ClipboardContent, ClipboardRequest};

fn manager() -> ClipboardManager {
    ClipboardManager::new(Platform::Other)
}

fn at(fingerprint: &str) -> ClipboardManager {
    let mut m = manager();
    m.record_write_fingerprint_at(1000, fingerprint.to_string());
    m
}

fn shows_text(m: &ClipboardManager, now: u64, text: &str) -> bool {
    m.is_own_write_at(now, text, false, false, &[])
}

fn strings(list: &[&str]) -> Vec<String> {
    list.iter().map(|s| s.to_string()).collect()
}

#[test]
fn written_text_is_own_within_the_window() {
    let m = at("text:hello");
    assert!(shows_text(&m, 1000, "hello"));
    assert!(shows_text(&m, 1500, "hello"));
    assert!(!shows_text(&m, 1501, "hello"));
}

#[test]
fn a_clock_that_went_back_is_within_the_window() {
    assert!(shows_text(&at("text:hello"), 3, "hello"));
}

#[test]
fn text_agrees_by_containment_or_prefix() {
    let m = at("text:hello");
    assert!(shows_text(&m, 1000, "say hello twice"));
    assert!(shows_text(&m, 1000, "hel"));
    assert!(!shows_text(&m, 1000, "ello"));
    assert!(!shows_text(&m, 1000, "other"));
    assert!(!shows_text(&m, 1000, ""));
}

#[test]
fn fingerprint_content_is_all_behind_the_first_colon() {
    let m = at("text:https://example.org");
    assert!(shows_text(&m, 1000, "https://example.org"));
    assert!(shows_text(&m, 1000, "https://exam"));
    assert!(!shows_text(&m, 1000, "see https elsewhere"));
    assert!(!shows_text(&m, 1000, "example.org"));
    let time = at("text:12:30");
    assert!(shows_text(&time, 1100, "at 12:30"));
    assert!(!shows_text(&time, 1100, "12 apples"));
}

#[test]
fn an_empty_content_agrees_with_every_text() {
    assert!(shows_text(&at("text:"), 1000, "anything"));
    assert!(!shows_text(&at("text::x"), 1000, "anything"));
}

#[test]
fn a_fingerprint_without_colon_agrees_with_nothing() {
    assert!(!shows_text(&at("hello"), 1000, "hello"));
}

#[test]
fn text_beyond_ascii_is_compared_by_characters() {
    let m = at("html:剪贴板");
    assert!(shows_text(&m, 1000, "我的剪贴板内容"));
    assert!(shows_text(&m, 1000, "剪贴"));
    assert!(!shows_text(&m, 1000, "贴板"));
}

#[test]
fn written_image_is_own_whatever_the_image() {
    let m = at("image:/tmp/a.png");
    assert!(m.is_own_write_at(1400, "", true, false, &[]));
    assert!(!m.is_own_write_at(1400, "", false, false, &[]));
    assert!(!m.is_own_write_at(1600, "", true, false, &[]));
    assert!(!at("text:image:x").is_own_write_at(1000, "", true, false, &[]));
}

#[test]
fn written_files_are_own_by_prefix() {
    let one = at("files:/a/b");
    assert!(one.is_own_write_at(1000, "", false, true, &strings(&["/x", "/a/b"])));
    assert!(one.is_own_write_at(1000, "", false, true, &strings(&["/a/bc"])));
    assert!(!one.is_own_write_at(1000, "", false, false, &strings(&["/a/b"])));
    assert!(!one.is_own_write_at(1000, "", false, true, &strings(&["/a"])));
    let drive = at("files:C:\\x|D:\\y");
    assert!(drive.is_own_write_at(1000, "", false, true, &strings(&["C:\\x", "D:\\y"])));
    assert!(drive.is_own_write_at(1000, "", false, true, &strings(&["D:\\y"])));
    assert!(!drive.is_own_write_at(1000, "", false, true, &strings(&["C:\\z"])));
}

#[test]
fn several_files_are_own_by_each_path() {
    let m = at("files:/a|/b");
    assert!(m.is_own_write_at(1100, "", false, true, &strings(&["/a", "/b"])));
    assert!(m.is_own_write_at(1100, "", false, true, &strings(&["/x", "/b"])));
    assert!(!m.is_own_write_at(1100, "", false, true, &strings(&["/x", "/y"])));
    assert!(!m.is_own_write_at(1100, "", false, true, &[]));
    let odd = at("files:/a|b|/c");
    assert!(odd.is_own_write_at(1100, "", false, true, &strings(&["/a|b", "/c"])));
}

#[test]
fn only_lists_of_files_are_split_at_bars() {
    let table = at("text:| a | b |");
    assert!(!table.is_own_write_at(1000, "", false, true, &strings(&["/a"])));
    let path = at("text:/a|b");
    assert!(path.is_own_write_at(1000, "", false, true, &strings(&["/a|b"])));
    assert!(!path.is_own_write_at(1000, "", false, true, &strings(&["/a"])));
}

#[test]
fn an_unused_manager_recognises_nothing() {
    let m = manager();
    assert!(!m.is_own_write_at(0, "x", true, true, &strings(&["x"])));
    assert!(!m.is_own_write("x", true, true, &strings(&["x"])));
}

#[test]
fn the_clock_decides_what_is_recent() {
    let mut m = manager();
    m.record_write_fingerprint("text:abc".to_string());
    assert!(m.is_own_write("abc", false, false, &[]));
    m.record_write_fingerprint_at(0, "text:abc".to_string());
    assert!(!m.is_own_write("abc", false, false, &[]));
}

#[test]
fn method_writes_ask_for_all_formats() {
    let mut m = manager();
    assert_eq!(
        m.write_text("t".to_string()),
        ClipboardRequest::SetContents(vec![ClipboardContent::Text("t".to_string())])
    );
    assert!(m.is_own_write("t", false, false, &[]));
    assert_eq!(
        m.write_html("t2".to_string(), "<p>".to_string()),
        ClipboardRequest::SetContents(vec![
            ClipboardContent::Html("<p>".to_string()),
            ClipboardContent::Text("t2".to_string()),
        ])
    );
    assert!(m.is_own_write("t2", false, false, &[]));
    assert_eq!(
        m.write_rtf("t3".to_string(), "{rtf}".to_string()),
        ClipboardRequest::SetContents(vec![
            ClipboardContent::Rtf("{rtf}".to_string()),
            ClipboardContent::Text("t3".to_string()),
        ])
    );
    assert!(m.is_own_write("t3", false, false, &[]));
    assert_eq!(m.write_image("/p.png".to_string()), ClipboardRequest::SetImage("/p.png".to_string()));
    assert!(m.is_own_write("", true, false, &[]));
}

#[test]
fn macos_does_without_the_plain_text_of_a_rich_text() {
    let mut m = ClipboardManager::new(Platform::MacOs);
    assert_eq!(
        m.write_rtf("t".to_string(), "{rtf}".to_string()),
        ClipboardRequest::SetContents(vec![ClipboardContent::Rtf("{rtf}".to_string())])
    );
    assert!(m.is_own_write("t", false, false, &[]));
}

#[test]
fn command_writes_record_and_ask() {
    let mut m = manager();
    assert_eq!(
        commands::write_text(&mut m, "x".to_string()),
        ClipboardRequest::SetText("x".to_string())
    );
    assert!(m.is_own_write("x", false, false, &[]));
    assert_eq!(
        commands::write_files(&mut m, strings(&["/f"])),
        ClipboardRequest::SetFiles(strings(&["/f"]))
    );
    assert!(m.is_own_write("", false, true, &strings(&["/f"])));
    commands::write_files(&mut m, strings(&["/a", "/b", "/c"]));
    assert!(m.is_own_write("[/a|/b|/c]", false, false, &[]));
    assert!(!m.is_own_write("/b|/c", false, false, &[]));
    assert_eq!(
        commands::write_image(&mut m, "/i.png".to_string()),
        ClipboardRequest::SetImage("/i.png".to_string())
    );
    assert_eq!(
        commands::write_html(&mut m, "t".to_string(), "<b>".to_string()),
        ClipboardRequest::SetContents(vec![
            ClipboardContent::Html("<b>".to_string()),
            ClipboardContent::Text("t".to_string()),
        ])
    );
    assert_eq!(
        commands::write_rtf(&mut m, "t".to_string(), "{}".to_string()),
        ClipboardRequest::SetContents(vec![
            ClipboardContent::Rtf("{}".to_string()),
            ClipboardContent::Text("t".to_string()),
        ])
    );
}

#[test]
fn paths_lose_their_scheme() {
    let read = commands::read_files(Ok(strings(&[
        "file:///home/a b",
        "/plain",
        "",
        "file://",
        "x file://y file://",
        "fifile://le://",
        "文件file://名",
    ])));
    assert_eq!(
        read,
        Ok(strings(&["/home/a b", "/plain", "", "", "x y ", "file://", "文件名"]))
    );
    assert_eq!(commands::read_files(Err("no".to_string())), Err("no".to_string()));
}

#[test]
fn listening_starts_and_stops() {
    let mut state = Some(manager());
    assert!(!commands::is_listen_enabled(&state));
    assert_eq!(commands::start_listen_inner(&state), Ok(WatcherAction::StartWatcher));
    assert_eq!(commands::watcher_created(state.as_mut().unwrap(), Ok(())), Ok(()));
    assert!(commands::is_listen_enabled(&state));
    assert_eq!(commands::start_listen_inner(&state), Ok(WatcherAction::Nothing));
    assert_eq!(commands::toggle_listen(&mut state), WatcherAction::StopWatcher);
    assert!(!commands::is_listen_enabled(&state));
    assert_eq!(commands::toggle_listen(&mut state), WatcherAction::StartWatcher);
    assert!(!commands::is_listen_enabled(&state));
    commands::watcher_created(state.as_mut().unwrap(), Ok(())).unwrap();
    assert!(commands::is_listen_enabled(&state));
    assert_eq!(commands::stop_listen(state.as_mut().unwrap()), WatcherAction::StopWatcher);
    assert_eq!(commands::stop_listen(state.as_mut().unwrap()), WatcherAction::Nothing);
}

#[test]
fn listening_needs_a_manager_and_a_watcher() {
    let mut none: Option<ClipboardManager> = None;
    assert_eq!(commands::toggle_listen(&mut none), WatcherAction::Nothing);
    assert!(none.is_none());
    assert_eq!(
        commands::start_listen_inner(&none),
        Err("ClipboardManager 未初始化".to_string())
    );
    assert!(!commands::is_listen_enabled(&none));
    let mut m = manager();
    assert_eq!(
        commands::watcher_created(&mut m, Err("busy".to_string())),
        Err("创建监听器失败: busy".to_string())
    );
    assert!(!commands::is_listen_enabled(&Some(m)));
}
