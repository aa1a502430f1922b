use eco_clipboard::batch::batch_paste;
use eco_clipboard::item::HistoryItem;
use eco_clipboard::lock::QuickPasteLock;
use eco_clipboard::manager::{ClipboardManager, Platform};
use eco_clipboard::paste::{
    paste_color, quick_paste, quick_paste_query, single_paste, PasteAction, PasteEvent, PasteStep,
    QueryOptions, QueryOutcome, WriteArgs,
};
use eco_clipboard::request::{ClipboardContent, ClipboardRequest};
use eco_clipboard::writing::write_to_clipboard;

fn some(s: &str) -> Option<String> {
    Some(s.to_string())
}

fn item(id: &str, item_type: Option<&str>, value: &str, search: &str) -> HistoryItem {
    HistoryItem {
        id: id.to_string(),
        item_type: item_type.map(|t| t.to_string()),
        subtype: None,
        value: some(value),
        search: some(search),
    }
}

fn args(item_type: &str, value: &str, search: &str, plain: bool) -> WriteArgs {
    WriteArgs {
        item_type: item_type.to_string(),
        subtype: None,
        value: value.to_string(),
        search: search.to_string(),
        plain,
    }
}

fn write(args: WriteArgs) -> PasteAction {
    PasteAction::Write { args }
}

fn plain(text: &str) -> PasteAction {
    write(args("text", text, text, true))
}

fn finish(outcome: Result<(), &str>) -> PasteAction {
    PasteAction::Finish { outcome: outcome.map_err(|e| e.to_string()) }
}

fn by_id(id: &str) -> QueryOptions {
    QueryOptions {
        only_favorites: false,
        exclude_deleted: true,
        limit: Some(1),
        offset: None,
        order_by: None,
        where_clause: some("id = ?"),
        params: Some(vec![id.to_string()]),
    }
}

fn found(items: Vec<HistoryItem>) -> PasteEvent {
    PasteEvent::Queried { answer: QueryOutcome::Found { items } }
}

fn written() -> PasteEvent {
    PasteEvent::Written { outcome: Ok(()) }
}

fn unwritten() -> PasteEvent {
    PasteEvent::Written { outcome: Err("locked".to_string()) }
}

fn performed() -> PasteEvent {
    PasteEvent::Performed { outcome: Ok(()) }
}

fn focus_steps(delay: u64) -> PasteAction {
    PasteAction::Perform { steps: vec![PasteStep::Sleep(delay), PasteStep::PasteWithFocus] }
}

fn asked(
    item_type: &str,
    subtype: Option<&str>,
    value: &str,
    search: &str,
    plain: bool,
) -> Option<ClipboardRequest> {
    let mut m = ClipboardManager::new(Platform::Other);
    write_to_clipboard(&mut m, item_type, subtype, value, search, plain)
}

fn text_request(text: &str) -> Option<ClipboardRequest> {
    Some(ClipboardRequest::SetContents(vec![ClipboardContent::Text(text.to_string())]))
}

fn html_request(text: &str, html: &str) -> Option<ClipboardRequest> {
    Some(ClipboardRequest::SetContents(vec![
        ClipboardContent::Html(html.to_string()),
        ClipboardContent::Text(text.to_string()),
    ]))
}

fn rtf_request(text: &str, rtf: &str) -> Option<ClipboardRequest> {
    Some(ClipboardRequest::SetContents(vec![
        ClipboardContent::Rtf(rtf.to_string()),
        ClipboardContent::Text(text.to_string()),
    ]))
}

#[test]
fn images_are_written_by_path() {
    assert_eq!(asked("image", None, "/i.png", "x", true), Some(ClipboardRequest::SetImage("/i.png".to_string())));
    assert_eq!(asked("image", None, "", "x", false), None);
}

#[test]
fn an_image_without_path_records_nothing() {
    let mut m = ClipboardManager::new(Platform::Other);
    m.record_write_fingerprint_at(10, "text:before".to_string());
    assert_eq!(write_to_clipboard(&mut m, "image", None, "", "", false), None);
    assert!(m.is_own_write_at(20, "before", false, false, &[]));
}

#[test]
fn formatted_items_fall_back_on_their_search_text() {
    assert_eq!(asked("formatted", Some("rtf"), "{r}", "s", false), rtf_request("s", "{r}"));
    assert_eq!(asked("formatted", Some("rtf"), "", "s", false), rtf_request("s", ""));
    assert_eq!(asked("formatted", Some("html"), "<p>", "s", false), html_request("s", "<p>"));
    assert_eq!(asked("formatted", None, "<p>", "", false), html_request("<p>", "<p>"));
    assert_eq!(asked("formatted", Some("markdown"), "", "s", false), text_request("s"));
    assert_eq!(asked("html", Some("rtf"), "<p>", "s", false), html_request("s", "<p>"));
    assert_eq!(asked("html", None, "", "s", false), text_request("s"));
    assert_eq!(asked("rtf", None, "{r}", "s", true), rtf_request("s", "{r}"));
}

#[test]
fn other_items_are_written_as_text() {
    assert_eq!(asked("text", None, "v", "s", false), text_request("v"));
    assert_eq!(asked("text", None, "v", "s", true), text_request("s"));
    assert_eq!(asked("text", None, "v", "", true), text_request("v"));
    assert_eq!(asked("files", None, "[\"/a\"]", "/a", false), text_request("[\"/a\"]"));
    assert_eq!(asked("code", Some("rtf"), "v", "s", false), text_request("v"));
}

#[test]
fn written_items_are_recognised() {
    let mut m = ClipboardManager::new(Platform::Other);
    write_to_clipboard(&mut m, "formatted", Some("html"), "<p>shown</p>", "shown", false);
    assert!(m.is_own_write("shown", false, false, &[]));
    write_to_clipboard(&mut m, "image", None, "/i.png", "", false);
    assert!(m.is_own_write("", true, false, &[]));
}

#[test]
fn a_quick_paste_runs_to_its_end() {
    let mut lock = QuickPasteLock::new();
    let (guard, run) = quick_paste(&mut lock, 2, true);
    assert_eq!(guard.unwrap().index(), 2);
    assert_eq!(run.action(), PasteAction::LookUp { index: 2 });
    let run = run.step(found(vec![item("a", None, "v", "s"), item("b", None, "w", "t")]));
    assert_eq!(run.action(), write(args("text", "v", "s", false)));
    let run = run.step(written());
    let mut steps = vec![PasteStep::Sleep(20); 10];
    steps.push(PasteStep::Paste);
    assert_eq!(run.action(), PasteAction::Perform { steps });
    assert_eq!(run.step(performed()).action(), finish(Ok(())));
}

#[test]
fn a_quick_paste_under_way_is_not_begun_again() {
    let mut lock = QuickPasteLock::new();
    let (first, _run) = quick_paste(&mut lock, 2, true);
    assert!(first.is_some());
    let (second, run) = quick_paste(&mut lock, 2, true);
    assert!(second.is_none());
    assert_eq!(run.action(), finish(Ok(())));
    lock.release(2);
    assert!(quick_paste(&mut lock, 2, true).0.is_some());
}

#[test]
fn a_quick_paste_fails_with_its_parts() {
    let mut lock = QuickPasteLock::new();
    let (guard, run) = quick_paste(&mut lock, 1, false);
    assert!(guard.is_some());
    assert_eq!(run.action(), finish(Err("数据库插件未初始化")));
    let begin = || quick_paste(&mut QuickPasteLock::new(), 1, true).1;
    let failed = QueryOutcome::Failed { error: "panic".to_string() };
    let run = begin().step(PasteEvent::Queried { answer: failed });
    assert_eq!(run.action(), finish(Err("panic")));
    let refused = QueryOutcome::Refused { error: "sql".to_string() };
    let run = begin().step(PasteEvent::Queried { answer: refused });
    assert_eq!(run.action(), finish(Err("查询数据库失败: sql")));
    assert_eq!(begin().step(found(vec![])).action(), finish(Ok(())));
    let run = begin().step(found(vec![item("a", None, "v", "s")])).step(unwritten());
    assert_eq!(run.action(), finish(Err("locked")));
}

#[test]
fn places_count_from_one() {
    let query = QueryOptions {
        only_favorites: false,
        exclude_deleted: true,
        limit: Some(1),
        offset: Some(0),
        order_by: some("time DESC"),
        where_clause: None,
        params: None,
    };
    assert_eq!(quick_paste_query(1), query);
    assert_eq!(quick_paste_query(7).offset, Some(6));
    assert_eq!(quick_paste_query(0x8000_0000).offset, Some(i32::MAX));
    assert_eq!(quick_paste_query(0x8000_0001).offset, Some(i32::MIN));
    assert_eq!(quick_paste_query(u32::MAX).offset, Some(-2));
}

#[test]
fn a_single_paste_runs_to_its_end() {
    let run = single_paste("a".to_string(), false, true);
    assert_eq!(run.action(), PasteAction::Query { options: by_id("a") });
    let run = run.step(found(vec![item("z", None, "no", "no"), item("a", Some("code"), "v", "s")]));
    assert_eq!(run.action(), write(args("code", "v", "s", false)));
    let run = run.step(written());
    assert_eq!(run.action(), focus_steps(15));
    assert_eq!(run.step(performed()).action(), finish(Ok(())));
}

#[test]
fn a_single_paste_waits_for_the_file_of_an_image() {
    let begin = || {
        single_paste("a".to_string(), false, true)
            .step(found(vec![item("a", Some("image"), "/i.png", "")]))
            .step(written())
    };
    assert_eq!(begin().action(), PasteAction::MeasureFile { path: "/i.png".to_string() });
    let run = begin().step(PasteEvent::Measured { size: Some(6_000_000) });
    assert_eq!(run.action(), focus_steps(150));
    let run = begin().step(PasteEvent::Measured { size: None });
    assert_eq!(run.action(), focus_steps(40));
}

#[test]
fn a_single_paste_may_be_plain() {
    let run = single_paste("a".to_string(), true, true)
        .step(found(vec![item("a", Some("formatted"), "<p>v</p>", "v")]));
    assert_eq!(run.action(), plain("v"));
    assert_eq!(run.step(written()).action(), focus_steps(25));
    let begin = || {
        single_paste("a".to_string(), false, true)
            .step(found(vec![item("a", Some("formatted"), "<p>v</p>", "v")]))
    };
    assert_eq!(begin().action(), PasteAction::AskPastePlain);
    let run = begin().step(PasteEvent::PastePlain { enabled: true });
    assert_eq!(run.action(), plain("v"));
    let run = begin().step(PasteEvent::PastePlain { enabled: false });
    assert_eq!(run.action(), write(args("formatted", "<p>v</p>", "v", false)));
}

#[test]
fn a_single_paste_fails_with_its_parts() {
    assert_eq!(
        single_paste("a".to_string(), false, false).action(),
        finish(Err("数据库插件未初始化"))
    );
    let begin = || single_paste("a".to_string(), false, true);
    let failed = QueryOutcome::Failed { error: "panic".to_string() };
    assert_eq!(begin().step(PasteEvent::Queried { answer: failed }).action(), finish(Err("panic")));
    let refused = QueryOutcome::Refused { error: "sql".to_string() };
    assert_eq!(
        begin().step(PasteEvent::Queried { answer: refused }).action(),
        finish(Err("查询数据库失败: sql"))
    );
    assert_eq!(begin().step(found(vec![])).action(), finish(Ok(())));
    let run = begin().step(found(vec![item("a", None, "v", "s")])).step(unwritten());
    assert_eq!(run.action(), finish(Err("locked")));
}

#[test]
fn a_color_is_pasted_as_text() {
    let run = paste_color("#00ff00".to_string());
    assert_eq!(run.action(), plain("#00ff00"));
    let run = run.step(written());
    assert_eq!(run.action(), focus_steps(15));
    assert_eq!(run.step(performed()).action(), finish(Ok(())));
    let run = paste_color("c".to_string()).step(unwritten());
    assert_eq!(run.action(), finish(Err("locked")));
    let run = paste_color("c".repeat(100)).step(written());
    assert_eq!(run.action(), focus_steps(25));
}

fn each(lists: Vec<Option<Vec<HistoryItem>>>) -> PasteEvent {
    PasteEvent::QueriedEach { answers: Ok(lists) }
}

fn ids(list: &[&str]) -> Vec<String> {
    list.iter().map(|s| s.to_string()).collect()
}

fn item_steps(write: u64, paste: u64, last: bool) -> PasteAction {
    let mut steps =
        vec![PasteStep::Sleep(write), PasteStep::PasteWithFocus, PasteStep::Sleep(paste)];
    if !last {
        steps.extend([PasteStep::PressEnter, PasteStep::Sleep(10), PasteStep::Sleep(15)]);
    }
    PasteAction::Perform { steps }
}

#[test]
fn a_batch_pastes_each_record_in_order() {
    let run = batch_paste(ids(&["a", "x", "b", "y", "c"]), false, None, None, true);
    assert_eq!(
        run.action(),
        PasteAction::QueryEach {
            queries: vec![by_id("a"), by_id("x"), by_id("b"), by_id("y"), by_id("c")],
        }
    );
    let run = run.step(each(vec![
        Some(vec![item("no", None, "no", "no"), item("a", None, "1", "s1")]),
        None,
        Some(vec![item("b", Some("image"), "/i.png", "")]),
        Some(vec![]),
        Some(vec![item("c", Some("html"), "<p>", "s3")]),
    ]));
    assert_eq!(run.action(), write(args("text", "1", "s1", false)));
    let run = run.step(written());
    assert_eq!(run.action(), item_steps(15, 20, false));
    let run = run.step(performed());
    assert_eq!(run.action(), PasteAction::MeasureFile { path: "/i.png".to_string() });
    let run = run.step(PasteEvent::Measured { size: Some(2_000_000) });
    assert_eq!(run.action(), write(args("image", "/i.png", "", false)));
    let run = run.step(written());
    assert_eq!(run.action(), item_steps(75, 50, false));
    let run = run.step(performed());
    assert_eq!(run.action(), write(args("html", "<p>", "s3", false)));
    let run = run.step(written());
    assert_eq!(run.action(), item_steps(25, 40, true));
    assert_eq!(run.step(performed()).action(), finish(Ok(())));
}

fn two() -> PasteEvent {
    each(vec![
        Some(vec![item("a", Some("html"), "<p>", "first")]),
        Some(vec![item("b", Some("image"), "/i", "second")]),
    ])
}

#[test]
fn a_plain_batch_writes_search_texts_and_measures_nothing() {
    let run = batch_paste(ids(&["a", "b"]), true, Some(false), Some(false), true).step(two());
    assert_eq!(run.action(), plain("first"));
    let run = run.step(written());
    assert_eq!(run.action(), item_steps(25, 40, false));
    let run = run.step(performed());
    assert_eq!(run.action(), plain("second"));
    let run = run.step(written());
    assert_eq!(run.action(), item_steps(40, 40, true));
}

#[test]
fn a_batch_may_skip_its_first_record() {
    let run = batch_paste(ids(&["a", "b"]), true, Some(true), None, true).step(two());
    assert_eq!(run.action(), plain("second"));
    let one = each(vec![Some(vec![item("a", None, "v", "s")])]);
    let run = batch_paste(ids(&["a"]), true, Some(true), None, true).step(one);
    assert_eq!(run.action(), finish(Ok(())));
}

#[test]
fn a_batch_may_begin_with_a_newline() {
    let begin = || batch_paste(ids(&["a", "b"]), true, None, Some(true), true).step(two());
    assert_eq!(begin().action(), plain("\n"));
    let run = begin().step(written());
    assert_eq!(run.action(), item_steps(15, 20, true));
    assert_eq!(run.step(performed()).action(), plain("first"));
    assert_eq!(begin().step(unwritten()).action(), plain("first"));
}

#[test]
fn a_batch_passes_over_what_cannot_be_written() {
    let run = batch_paste(ids(&["a", "b"]), true, None, None, true).step(two()).step(unwritten());
    assert_eq!(run.action(), plain("second"));
    assert_eq!(run.step(unwritten()).action(), finish(Ok(())));
}

#[test]
fn a_batch_ends_with_a_failing_keystroke() {
    let run = batch_paste(ids(&["a", "b"]), true, None, None, true).step(two()).step(written());
    let run = run.step(PasteEvent::Performed { outcome: Err("no keyboard".to_string()) });
    assert_eq!(run.action(), finish(Err("no keyboard")));
}

#[test]
fn a_batch_may_have_nothing_to_do() {
    assert_eq!(batch_paste(vec![], false, None, None, false).action(), finish(Ok(())));
    assert_eq!(
        batch_paste(ids(&["a"]), false, None, None, false).action(),
        finish(Err("数据库插件未初始化"))
    );
    let begin = || batch_paste(ids(&["a", "b"]), false, None, Some(true), true);
    assert_eq!(begin().step(each(vec![None, Some(vec![])])).action(), finish(Ok(())));
    let failed = PasteEvent::QueriedEach { answers: Err("panic".to_string()) };
    assert_eq!(begin().step(failed).action(), finish(Err("panic")));
    assert_eq!(begin().step(written()).action(), begin().action());
}
