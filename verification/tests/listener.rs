use eco_clipboard::item::{
    Detection, DetectionOptions, Draft, InsertItem, InsertResult, SavedImage,
};
use eco_clipboard::listener::{
    choose_format, classify, draft_files, make_record, ChangeAction, ChangeEvent, ChangePhase, ClipboardListen,
};
use eco_clipboard::manager::{ClipboardManager, Platform};

const NOW: i64 = 1_700_000_000_000;

fn manager() -> ClipboardManager {
    ClipboardManager::new(Platform::Other)
}

fn some(s: &str) -> Option<String> {
    Some(s.to_string())
}

fn list(files: &[&str]) -> Option<Vec<String>> {
    Some(files.iter().map(|s| s.to_string()).collect())
}

fn snapshot() -> ChangeEvent {
    ChangeEvent::Snapshot { text: None, has_image: false, has_files: false, files: None }
}

fn text_formats() -> ChangeEvent {
    ChangeEvent::Formats {
        copy_plain: false,
        has_image: false,
        has_files: false,
        files: None,
        has_html: false,
        has_rtf: false,
    }
}

fn files_formats(files: &[&str]) -> ChangeEvent {
    ChangeEvent::Formats {
        copy_plain: false,
        has_image: false,
        has_files: true,
        files: list(files),
        has_html: true,
        has_rtf: true,
    }
}

fn give(run: ClipboardListen, event: ChangeEvent) -> ClipboardListen {
    run.on_clipboard_change_at(&manager(), event, NOW)
}

/// The handling of a change up to the choice of a format.
fn opened(detector: bool, formats: ChangeEvent) -> ClipboardListen {
    let run = ClipboardListen::new();
    assert_eq!(run.action(), ChangeAction::ReadSnapshot);
    let run = give(run, snapshot());
    assert_eq!(run.action(), ChangeAction::FindServices);
    let run = give(run, ChangeEvent::Services { database: true, detector });
    assert_eq!(run.action(), ChangeAction::ReadFormats);
    give(run, formats)
}

/// The record that is added once everything about the content is known.
fn inserted(run: ClipboardListen) -> InsertItem {
    assert_eq!(run.action(), ChangeAction::NewId);
    let run = give(run, ChangeEvent::Identified { id: "id-1".to_string() });
    match run.action() {
        ChangeAction::Insert { item } => item,
        other => panic!("{:?}", other),
    }
}

fn record(item_type: &str, group: &str) -> InsertItem {
    InsertItem {
        id: "id-1".to_string(),
        item_type: some(item_type),
        group: some(group),
        value: None,
        search: None,
        count: None,
        width: None,
        height: None,
        favorite: 0,
        time: NOW,
        note: None,
        subtype: None,
        deleted: Some(0),
        sync_status: some("not_synced"),
        source_app_name: None,
        source_app_icon: None,
        position: None,
    }
}

fn finding() -> Detection {
    Detection {
        subtype: None,
        is_code: false,
        is_markdown: false,
        code_language: None,
        color_normalized: None,
    }
}

fn text_draft(text: &str) -> Draft {
    Draft {
        item_type: "text".to_string(),
        group: "text".to_string(),
        value: some(text),
        search: some(text),
        count: Some(text.chars().count() as i32),
        subtype: None,
        width: None,
        height: None,
    }
}

#[test]
fn plain_text_is_recorded() {
    let run = opened(false, text_formats());
    assert_eq!(run.action(), ChangeAction::ReadText);
    let run = give(run, ChangeEvent::TextRead { text: some("héllo") });
    let expected = InsertItem {
        value: some("héllo"),
        search: some("héllo"),
        count: Some(5),
        ..record("text", "text")
    };
    assert_eq!(inserted(run), expected);
}

#[test]
fn own_writes_are_ignored() {
    let mut m = manager();
    m.record_write_fingerprint_at(NOW as u64, "text:mine".to_string());
    let event = ChangeEvent::Snapshot {
        text: some("mine"),
        has_image: false,
        has_files: false,
        files: None,
    };
    let run = ClipboardListen::new().on_clipboard_change_at(&m, event, NOW + 400);
    assert_eq!(run.action(), ChangeAction::Finish);
}

#[test]
fn own_writes_are_ignored_by_the_clock() {
    let mut m = manager();
    m.write_text("mine".to_string());
    let event = ChangeEvent::Snapshot {
        text: some("mine"),
        has_image: false,
        has_files: false,
        files: None,
    };
    let run = ClipboardListen::new().on_clipboard_change(&m, event);
    assert_eq!(run.action(), ChangeAction::Finish);
}

#[test]
fn old_writes_are_looked_at_again() {
    let mut m = manager();
    m.record_write_fingerprint_at(NOW as u64, "text:mine".to_string());
    let event = ChangeEvent::Snapshot {
        text: some("mine"),
        has_image: false,
        has_files: false,
        files: None,
    };
    let run = ClipboardListen::new().on_clipboard_change_at(&m, event, NOW + 501);
    assert_eq!(run.action(), ChangeAction::FindServices);
}

#[test]
fn without_a_database_nothing_happens() {
    let run = give(ClipboardListen::new(), snapshot());
    let run = give(run, ChangeEvent::Services { database: false, detector: true });
    assert_eq!(run.action(), ChangeAction::Finish);
}

#[test]
fn blank_texts_are_ignored() {
    for text in ["", "\n", " \t\r\n", "\u{3000}\u{a0}\u{85}", "\u{2028}\u{2003}\u{1680}"] {
        let run = give(opened(true, text_formats()), ChangeEvent::TextRead { text: some(text) });
        assert_eq!(run.action(), ChangeAction::Finish);
    }
    for text in ["x", " x ", "\u{200b}", "\u{feff}"] {
        let run = give(opened(false, text_formats()), ChangeEvent::TextRead { text: some(text) });
        assert_eq!(run.action(), ChangeAction::NewId);
    }
}

#[test]
fn every_character_is_blank_just_where_trim_drops_it() {
    for c in '\u{0}'..='\u{3100}' {
        let text = c.to_string();
        let blank = text.trim().is_empty();
        let run = give(opened(false, text_formats()), ChangeEvent::TextRead { text: Some(text) });
        assert_eq!(run.action() == ChangeAction::Finish, blank);
    }
}

#[test]
fn unreadable_contents_are_ignored() {
    let run = give(opened(true, text_formats()), ChangeEvent::TextRead { text: None });
    assert_eq!(run.action(), ChangeAction::Finish);
    for (html, action) in [(true, ChangeAction::ReadHtml), (false, ChangeAction::ReadRichText)] {
        let run = opened(
            true,
            ChangeEvent::Formats {
                copy_plain: false,
                has_image: false,
                has_files: false,
                files: None,
                has_html: html,
                has_rtf: true,
            },
        );
        assert_eq!(run.action(), action);
        let run = give(run, ChangeEvent::RichRead { value: None, text: some("t") });
        assert_eq!(run.action(), ChangeAction::Finish);
    }
}

#[test]
fn rich_text_is_recorded_with_its_plain_text() {
    let formats = ChangeEvent::Formats {
        copy_plain: false,
        has_image: false,
        has_files: false,
        files: None,
        has_html: false,
        has_rtf: true,
    };
    let run = give(opened(true, formats), ChangeEvent::RichRead { value: some("{rtf}"), text: some("abc") });
    let expected = InsertItem {
        value: some("{rtf}"),
        search: some("abc"),
        count: Some(3),
        subtype: some("rtf"),
        ..record("formatted", "text")
    };
    assert_eq!(inserted(run), expected);
}

#[test]
fn a_page_is_recorded_without_its_plain_text() {
    let formats = ChangeEvent::Formats {
        copy_plain: false,
        has_image: false,
        has_files: false,
        files: None,
        has_html: true,
        has_rtf: true,
    };
    let run = give(opened(true, formats), ChangeEvent::RichRead { value: some("<p>"), text: None });
    let expected = InsertItem {
        value: some("<p>"),
        subtype: some("html"),
        ..record("formatted", "text")
    };
    assert_eq!(inserted(run), expected);
}

#[test]
fn copying_plainly_reads_the_plain_text() {
    let formats = ChangeEvent::Formats {
        copy_plain: true,
        has_image: false,
        has_files: false,
        files: None,
        has_html: true,
        has_rtf: true,
    };
    assert_eq!(opened(true, formats).action(), ChangeAction::ReadText);
}

fn saved() -> SavedImage {
    SavedImage { path: "/img/1.png".to_string(), file_size: 77, width: 640, height: 480 }
}

fn image_record() -> InsertItem {
    InsertItem {
        value: some("/img/1.png"),
        count: Some(77),
        subtype: some("image"),
        width: Some(640),
        height: Some(480),
        ..record("image", "image")
    }
}

fn image_formats(has_files: bool, files: &[&str]) -> ChangeEvent {
    ChangeEvent::Formats {
        copy_plain: false,
        has_image: true,
        has_files,
        files: list(files),
        has_html: false,
        has_rtf: false,
    }
}

#[test]
fn a_screenshot_is_recorded() {
    let run = opened(true, image_formats(true, &["/a", "/b"]));
    assert_eq!(run.action(), ChangeAction::SaveScreenshot);
    let run = give(run, ChangeEvent::ImageSaved { image: Some(saved()) });
    assert_eq!(run.action(), ChangeAction::ScheduleOcr { path: "/img/1.png".to_string() });
    let run = give(run, ChangeEvent::Performed);
    assert_eq!(inserted(run), image_record());
}

#[test]
fn a_failing_screenshot_falls_back_on_the_only_file() {
    let run = opened(true, image_formats(true, &["/a.png"]));
    let run = give(run, ChangeEvent::ImageSaved { image: None });
    assert_eq!(run.action(), ChangeAction::SaveFileImage { path: "/a.png".to_string() });
    let run = give(run, ChangeEvent::ImageSaved { image: Some(saved()) });
    let run = give(run, ChangeEvent::Performed);
    assert_eq!(inserted(run), image_record());
    for (has_files, files) in [(false, vec!["/a"]), (true, vec!["/a", "/b"]), (true, vec![])] {
        let run = opened(true, image_formats(has_files, &files));
        let run = give(run, ChangeEvent::ImageSaved { image: None });
        assert_eq!(run.action(), ChangeAction::Finish);
    }
}

#[test]
fn a_file_that_is_no_image_is_recorded_as_a_file() {
    let run = opened(true, files_formats(&["C:\\a \"b\".txt"]));
    assert_eq!(run.action(), ChangeAction::SaveFileImage { path: "C:\\a \"b\".txt".to_string() });
    let run = give(run, ChangeEvent::ImageSaved { image: None });
    assert_eq!(run.action(), ChangeAction::MeasureFile { path: "C:\\a \"b\".txt".to_string() });
    let run = give(run, ChangeEvent::Measured { size: Some(12) });
    let expected = InsertItem {
        value: some("[\"C:\\\\a \\\"b\\\".txt\"]"),
        search: some("C:\\a \"b\".txt"),
        count: Some(12),
        ..record("files", "files")
    };
    assert_eq!(inserted(run), expected);
    let run = opened(true, files_formats(&["/gone"]));
    let run = give(run, ChangeEvent::ImageSaved { image: None });
    let item = inserted(give(run, ChangeEvent::Measured { size: None }));
    assert_eq!(item.count, Some(0));
    let run = opened(true, image_formats(true, &["/a.bin"]));
    let run = give(run, ChangeEvent::ImageSaved { image: None });
    let run = give(run, ChangeEvent::ImageSaved { image: None });
    let item = inserted(give(run, ChangeEvent::Measured { size: Some(7) }));
    assert_eq!(item.value, some("[\"/a.bin\"]"));
    assert_eq!(item.count, Some(7));
}

#[test]
fn paths_are_escaped_as_json() {
    let path = "/\u{1}\u{1f}\u{8}\t\n\u{c}\r\u{7f}\"\\/é文";
    let run = opened(true, files_formats(&[path, ""]));
    let item = inserted(give(run, ChangeEvent::Measured { size: None }));
    let expected = "[\"/\\u0001\\u001f\\b\\t\\n\\f\\r\u{7f}\\\"\\\\/é文\",\"\"]";
    assert_eq!(item.value, some(expected));
}

#[test]
fn texts_are_counted_by_characters() {
    let run = give(opened(false, text_formats()), ChangeEvent::TextRead { text: some("你好") });
    let expected = InsertItem {
        value: some("你好"),
        search: some("你好"),
        count: Some(2),
        ..record("text", "text")
    };
    assert_eq!(inserted(run), expected);
}

#[test]
fn several_files_are_counted_by_the_first() {
    let run = opened(true, files_formats(&["/a", "/b"]));
    assert_eq!(run.action(), ChangeAction::MeasureFile { path: "/a".to_string() });
    let expected = InsertItem {
        value: some("[\"/a\",\"/b\"]"),
        search: some("/a /b"),
        count: Some(2048),
        ..record("files", "files")
    };
    assert_eq!(inserted(give(run, ChangeEvent::Measured { size: Some(2048) })), expected);
    let run = opened(true, files_formats(&["/a", "/b"]));
    let item = inserted(give(run, ChangeEvent::Measured { size: None }));
    assert_eq!(item.count, Some(1));
    let run = opened(true, files_formats(&["/a", "/b"]));
    let item = inserted(give(run, ChangeEvent::Measured { size: Some(0x1_8000_0001) }));
    assert_eq!(item.count, Some(0x1_8000_0001u64 as i32));
    assert_eq!(item.count, Some(-2147483647));
}

#[test]
fn no_files_are_recorded_as_none() {
    let item = inserted(opened(true, files_formats(&[])));
    assert_eq!(item.value, some("[]"));
    assert_eq!(item.search, some(""));
    assert_eq!(item.count, Some(1));
}

#[test]
fn texts_are_sent_to_the_detector() {
    let run = give(opened(true, text_formats()), ChangeEvent::TextRead { text: some("#fff") });
    assert_eq!(
        run.action(),
        ChangeAction::Detect {
            content: "#fff".to_string(),
            item_type: "text".to_string(),
            options: DetectionOptions {
                detect_url: true,
                detect_email: true,
                detect_path: true,
                detect_color: true,
                detect_code: true,
                detect_markdown: true,
                code_min_length: 10,
            },
        }
    );
    let detection = Detection {
        subtype: some("color"),
        color_normalized: some("255,255,255"),
        ..finding()
    };
    let run = give(run, ChangeEvent::Detected { detection: Some(detection) });
    let expected = InsertItem {
        value: some("#fff"),
        search: some("255,255,255"),
        count: Some(4),
        subtype: some("color"),
        ..record("text", "text")
    };
    assert_eq!(inserted(run), expected);
}

#[test]
fn a_failing_detector_leaves_a_plain_text() {
    let run = give(opened(true, text_formats()), ChangeEvent::TextRead { text: some("x y") });
    let item = inserted(give(run, ChangeEvent::Detected { detection: None }));
    assert_eq!(item.item_type, some("text"));
    assert_eq!(item.subtype, None);
}

#[test]
fn findings_are_classified() {
    let markdown = classify(text_draft("a"), Some(Detection { is_markdown: true, is_code: true, ..finding() }));
    assert_eq!(markdown.item_type, "formatted");
    assert_eq!(markdown.subtype, some("markdown"));
    let by_language = Detection { code_language: some("markdown"), is_code: true, ..finding() };
    let by_language = classify(text_draft("a"), Some(by_language));
    assert_eq!(by_language.item_type, "formatted");
    assert_eq!(by_language.subtype, some("markdown"));
    let code = Detection { is_code: true, code_language: some("rust"), subtype: some("url"), ..finding() };
    let code = classify(text_draft("a"), Some(code));
    assert_eq!(code.item_type, "code");
    assert_eq!(code.subtype, some("rust"));
    let url = Detection { subtype: some("url"), color_normalized: some("1,2,3"), ..finding() };
    let url = classify(text_draft("a"), Some(url));
    assert_eq!(url.item_type, "text");
    assert_eq!(url.subtype, some("url"));
    assert_eq!(url.search, some("a"));
    let color = classify(text_draft("red"), Some(Detection { subtype: some("color"), ..finding() }));
    assert_eq!(color.search, some("red"));
    assert_eq!(classify(text_draft("a"), Some(finding())), text_draft("a"));
    assert_eq!(classify(text_draft("a"), None), text_draft("a"));
}

#[test]
fn a_record_is_announced_once_it_is_taken_in() {
    let open = || {
        let run = give(opened(false, text_formats()), ChangeEvent::TextRead { text: some("t") });
        give(run, ChangeEvent::Identified { id: "i".to_string() })
    };
    for (is_update, duplicate) in [(true, some("old")), (false, None)] {
        let result = InsertResult { is_update, insert_id: some("old") };
        let run = give(open(), ChangeEvent::Inserted { result: Some(result) });
        assert_eq!(run.action(), ChangeAction::PlayAudio);
        let run = give(run, ChangeEvent::Performed);
        assert_eq!(
            run.action(),
            ChangeAction::Emit {
                event: "plugin:eco-clipboard://database_updated".to_string(),
                duplicate_id: duplicate,
            }
        );
        let run = give(run, ChangeEvent::Performed);
        assert_eq!(run.action(), ChangeAction::Finish);
    }
    let run = give(open(), ChangeEvent::Inserted { result: None });
    assert_eq!(run.action(), ChangeAction::Finish);
}

#[test]
fn other_answers_change_nothing() {
    let run = give(ClipboardListen::new(), ChangeEvent::Performed);
    assert_eq!(run.action(), ChangeAction::ReadSnapshot);
    let run = give(opened(true, image_formats(false, &[])), ChangeEvent::Measured { size: None });
    assert_eq!(run.action(), ChangeAction::SaveScreenshot);
}

#[test]
fn records_carry_the_time_of_the_clock() {
    let run = give(opened(false, text_formats()), ChangeEvent::TextRead { text: some("t") });
    let run = run.on_clipboard_change(&manager(), ChangeEvent::Identified { id: "i".to_string() });
    match run.action() {
        ChangeAction::Insert { item } => assert!(item.time > NOW),
        other => panic!("{:?}", other),
    }
}

#[test]
fn wide_images_wrap_around() {
    let wide = SavedImage { width: 0x8000_0002, height: 3, ..saved() };
    let run = give(opened(true, image_formats(false, &[])), ChangeEvent::ImageSaved { image: Some(wide) });
    let item = inserted(give(run, ChangeEvent::Performed));
    assert_eq!(item.width, Some(-2147483646));
    assert_eq!(item.height, Some(3));
}

#[test]
fn formats_are_chosen_in_order() {
    let phase = choose_format(true, false, true, true, vec!["/a".to_string()], true, true);
    assert!(matches!(phase, ChangePhase::Screenshot { has_files: true, .. }));
    let phase = choose_format(true, false, false, false, vec![], true, true);
    assert!(matches!(phase, ChangePhase::Html));
    let phase = choose_format(true, false, false, false, vec![], false, true);
    assert!(matches!(phase, ChangePhase::RichText));
    let phase = choose_format(true, false, false, false, vec![], false, false);
    assert!(matches!(phase, ChangePhase::PlainText { detector: true }));
}

#[test]
fn records_are_new() {
    let item = make_record(text_draft("t"), "x".to_string(), 9);
    let expected = InsertItem {
        id: "x".to_string(),
        value: some("t"),
        search: some("t"),
        count: Some(1),
        time: 9,
        ..record("text", "text")
    };
    assert_eq!(item, expected);
}

#[test]
fn a_pasted_record_is_not_recorded_again() {
    let mut m = manager();
    eco_clipboard::writing::write_to_clipboard(
        &mut m,
        "formatted",
        Some("html"),
        "<b>a: b</b>",
        "a: b",
        false,
    );
    let event = ChangeEvent::Snapshot {
        text: some("a: b"),
        has_image: false,
        has_files: false,
        files: None,
    };
    let run = ClipboardListen::new().on_clipboard_change(&m, event);
    assert_eq!(run.action(), ChangeAction::Finish);
}

#[test]
fn files_are_kept_with_their_json() {
    let files = vec!["/a".to_string(), "/b".to_string()];
    let draft = draft_files(&files, some("json"), 7);
    let expected = Draft {
        item_type: "files".to_string(),
        group: "files".to_string(),
        value: some("json"),
        search: some("/a /b"),
        count: Some(7),
        subtype: None,
        width: None,
        height: None,
    };
    assert_eq!(draft, expected);
}
