//! What a clipboard change adds to the history, content by content.

use vstd::prelude::*;
use crate::item::{Detection, DetectionOptions, Draft, InsertItem, SavedImage};
use crate::json;
use crate::listener;
use crate::listener::{
    ChangeAction, ChangeAnswers, ChangeEvent, ChangePhase, EventView, PhaseView,
};
use crate::manager;
use crate::manager::ManagerState;
use crate::text;

verus! {

/// A change that is looked at: there is a database, and the change is not one of this program.
pub open spec fn looked_at(answers: ChangeAnswers) -> bool {
    &&& answers.database
    &&& !manager::own_write(
        answers.manager,
        answers.seen_at as u64,
        text::text_or_empty(answers.shown),
        answers.shows_image,
        answers.shows_files,
        listener::list_or_empty(answers.shown_files),
    )
}

/// What is asked for in the end, under these answers: that a record be added, or nothing more.
pub open spec fn asked_in_the_end(answers: ChangeAnswers) -> ChangeAction<Seq<char>> {
    listener::action_of(listener::settled(answers, ChangePhase::Snapshot))
}

/// The record that these answers have added says this of the content, and is otherwise new.
pub open spec fn adds(
    answers: ChangeAnswers,
    item_type: Seq<char>,
    group: Seq<char>,
    value: Option<Seq<char>>,
    search: Option<Seq<char>>,
    count: Option<i32>,
    subtype: Option<Seq<char>>,
    width: Option<i32>,
    height: Option<i32>,
) -> bool {
    asked_in_the_end(answers) == (ChangeAction::Insert {
        item: InsertItem {
            id: answers.id,
            item_type: Some(item_type),
            group: Some(group),
            value,
            search,
            count,
            width,
            height,
            favorite: 0,
            time: answers.made_at,
            note: None,
            subtype,
            deleted: Some(0),
            sync_status: Some("not_synced"@),
            source_app_name: None,
            source_app_icon: None,
            position: None,
        },
    })
}

/// Neither an image nor files are offered.
pub open spec fn only_text(answers: ChangeAnswers) -> bool {
    !answers.has_image && !answers.has_files
}

/// A number of characters or bytes as the history counts it.
pub open spec fn counted(n: int) -> i32 {
    text::wrap_i32(n) as i32
}

/// A page is kept as a formatted text, and found and counted by the plain text that was read with
/// it, for every page and every plain text.
pub proof fn law_page_is_kept_with_its_text(answers: ChangeAnswers, page: Seq<char>)
    requires
        looked_at(answers),
        only_text(answers),
        answers.has_html,
        !answers.copy_plain,
        answers.html == Some(page),
    ensures
        answers.text matches Some(t) ==> adds(
            answers,
            "formatted"@,
            "text"@,
            Some(page),
            Some(t),
            Some(counted(t.len() as int)),
            Some("html"@),
            None,
            None,
        ),
        answers.text is None ==> adds(
            answers,
            "formatted"@,
            "text"@,
            Some(page),
            None,
            None,
            Some("html"@),
            None,
            None,
        ),
{
    listener::law_change_adds_what_is_kept(answers);
}

/// A rich text is kept as a formatted text, and found and counted by the plain text that was read
/// with it, where the clipboard offers no page.
pub proof fn law_rich_text_is_kept_with_its_text(answers: ChangeAnswers, rtf: Seq<char>)
    requires
        looked_at(answers),
        only_text(answers),
        answers.has_rtf,
        !answers.has_html,
        !answers.copy_plain,
        answers.rtf == Some(rtf),
    ensures
        answers.text matches Some(t) ==> adds(
            answers,
            "formatted"@,
            "text"@,
            Some(rtf),
            Some(t),
            Some(counted(t.len() as int)),
            Some("rtf"@),
            None,
            None,
        ),
        answers.text is None ==> adds(
            answers,
            "formatted"@,
            "text"@,
            Some(rtf),
            None,
            None,
            Some("rtf"@),
            None,
            None,
        ),
{
    listener::law_change_adds_what_is_kept(answers);
}

/// The page or rich text on the clipboard is not read: neither is offered, or only plain text is
/// wanted.
pub open spec fn plain_text_is_read(answers: ChangeAnswers, t: Seq<char>) -> bool {
    &&& looked_at(answers)
    &&& only_text(answers)
    &&& answers.copy_plain || (!answers.has_html && !answers.has_rtf)
    &&& answers.text == Some(t)
}

/// A plain text is kept as it is, found by itself and counted by its characters, where there is no
/// detector or the detector fails or finds nothing.
pub proof fn law_plain_text_is_kept(answers: ChangeAnswers, t: Seq<char>)
    requires
        plain_text_is_read(answers, t),
        !text::blank(t),
        answers.detector ==> (answers.detection matches Some(d) ==> !d.is_markdown && !d.is_code
            && d.subtype is None && d.code_language != Some("markdown"@)),
    ensures
        adds(
            answers,
            "text"@,
            "text"@,
            Some(t),
            Some(t),
            Some(counted(t.len() as int)),
            None,
            None,
            None,
        ),
{
    listener::law_change_adds_what_is_kept(answers);
}

/// A text in which something was detected keeps its value, its count and its group. Markdown makes
/// it a formatted text, code a code in its language, and any other finding gives it a subtype; only
/// a colour is found by something else than the text, its normal form where it has one.
pub proof fn law_detected_text_is_kept(
    answers: ChangeAnswers,
    t: Seq<char>,
    d: Detection<Seq<char>>,
)
    requires
        plain_text_is_read(answers, t),
        !text::blank(t),
        answers.detector,
        answers.detection == Some(d),
    ensures
        ({
            let count = Some(counted(t.len() as int));
            let markdown = d.is_markdown || d.code_language == Some("markdown"@);
            &&& markdown ==> adds(
                answers,
                "formatted"@,
                "text"@,
                Some(t),
                Some(t),
                count,
                Some("markdown"@),
                None,
                None,
            )
            &&& !markdown && d.is_code ==> adds(
                answers,
                "code"@,
                "text"@,
                Some(t),
                Some(t),
                count,
                d.code_language,
                None,
                None,
            )
            &&& !markdown && !d.is_code && d.subtype != Some("color"@) ==> adds(
                answers,
                "text"@,
                "text"@,
                Some(t),
                Some(t),
                count,
                d.subtype,
                None,
                None,
            )
            &&& !markdown && !d.is_code && d.subtype == Some("color"@) ==> adds(
                answers,
                "text"@,
                "text"@,
                Some(t),
                match d.color_normalized {
                    Some(normal) => Some(normal),
                    None => Some(t),
                },
                count,
                Some("color"@),
                None,
                None,
            )
        }),
{
    listener::law_change_adds_what_is_kept(answers);
}

/// An image on the clipboard is kept as the file that it was saved in, with the size of that file
/// and its width and height, and with nothing to find it by yet; whatever else is on the clipboard.
pub proof fn law_screenshot_is_kept(answers: ChangeAnswers, image: SavedImage<Seq<char>>)
    requires
        looked_at(answers),
        answers.has_image,
        answers.screenshot == Some(image),
    ensures
        adds(
            answers,
            "image"@,
            "image"@,
            Some(image.path),
            None,
            Some(image.file_size),
            Some("image"@),
            Some(counted(image.width as int)),
            Some(counted(image.height as int)),
        ),
{
    listener::law_change_adds_what_is_kept(answers);
}

/// The clipboard holds one file, and no image that can be saved.
pub open spec fn only_file(answers: ChangeAnswers, path: Seq<char>) -> bool {
    &&& looked_at(answers)
    &&& answers.has_image ==> answers.screenshot is None
    &&& answers.has_files
    &&& answers.files == Some(seq![path])
}

/// A single file is kept as the image in it, where there is one, and otherwise as a file with its
/// size in bytes, or zero where that is not known.
pub proof fn law_only_file_is_kept(answers: ChangeAnswers, path: Seq<char>)
    requires
        only_file(answers, path),
    ensures
        answers.file_image matches Some(image) ==> adds(
            answers,
            "image"@,
            "image"@,
            Some(image.path),
            None,
            Some(image.file_size),
            Some("image"@),
            Some(counted(image.width as int)),
            Some(counted(image.height as int)),
        ),
        answers.file_image is None ==> adds(
            answers,
            "files"@,
            "files"@,
            Some(seq!['[', '"'] + json::escaped_text(path) + seq!['"', ']']),
            Some(path),
            Some(
                match answers.size {
                    Some(n) => counted(n as int),
                    None => 0,
                },
            ),
            None,
            None,
            None,
        ),
{
    listener::law_change_adds_what_is_kept(answers);
    let list = seq![path];
    assert(list.map_values(|t: Seq<char>| json::json_string(t)) =~= seq![
        json::json_string(path),
    ]);
    assert(json::json_array(list) =~= seq!['[', '"'] + json::escaped_text(path)
        + seq!['"', ']']);
}

/// Several files are kept as one record: the paths as JSON, with a space between them to be found
/// by, and the size of the first in bytes, or one where that is not known.
pub proof fn law_several_files_are_kept(answers: ChangeAnswers, files: Seq<Seq<char>>)
    requires
        looked_at(answers),
        !answers.has_image,
        answers.has_files,
        answers.files == Some(files),
        files.len() != 1,
    ensures
        adds(
            answers,
            "files"@,
            "files"@,
            Some(json::json_array(files)),
            Some(text::join(files, seq![' '])),
            Some(
                match answers.size {
                    Some(n) if files.len() > 1 => counted(n as int),
                    _ => 1,
                },
            ),
            None,
            None,
            None,
        ),
{
    listener::law_change_adds_what_is_kept(answers);
    reveal_strlit(" ");
    assert(" "@ =~= seq![' ']);
}

/// Nothing is added for a change of this program, without a database, for a content that cannot be
/// read, or for a text of nothing but white space.
pub proof fn law_nothing_is_kept(answers: ChangeAnswers)
    ensures
        !looked_at(answers) ==> asked_in_the_end(answers) is Finish,
        answers.has_image && answers.screenshot is None && !(answers.has_files
            && listener::list_or_empty(answers.files).len() == 1) ==> asked_in_the_end(
            answers,
        ) is Finish,
        only_text(answers) && !answers.copy_plain && answers.has_html && answers.html is None
            ==> asked_in_the_end(answers) is Finish,
        only_text(answers) && !answers.copy_plain && !answers.has_html && answers.has_rtf
            && answers.rtf is None ==> asked_in_the_end(answers) is Finish,
        only_text(answers) && (answers.copy_plain || (!answers.has_html && !answers.has_rtf))
            && (answers.text matches Some(t) ==> text::blank(t)) ==> asked_in_the_end(
            answers,
        ) is Finish,
{
    listener::law_change_adds_what_is_kept(answers);
}

/// Of the formats that the clipboard offers, an image is saved before anything else is looked at; a
/// single file is tried as an image; of several files the first is measured; and a text is read as a
/// page, as a rich text or plainly, in this order, but plainly only where that is wanted.
pub proof fn law_formats_are_asked_for_in_order(
    detector: bool,
    copy_plain: bool,
    has_image: bool,
    has_files: bool,
    files: Seq<Seq<char>>,
    has_html: bool,
    has_rtf: bool,
)
    ensures
        ({
            let asked = listener::action_of(
                listener::chosen_format(
                    detector,
                    copy_plain,
                    has_image,
                    has_files,
                    files,
                    has_html,
                    has_rtf,
                ),
            );
            &&& has_image ==> asked is SaveScreenshot
            &&& !has_image && has_files && files.len() == 1 ==> asked == (
            ChangeAction::SaveFileImage { path: files[0] })
            &&& !has_image && has_files && files.len() > 1 ==> asked == (
            ChangeAction::MeasureFile { path: files[0] })
            &&& !has_image && has_files && files.len() == 0 ==> asked is NewId
            &&& !has_image && !has_files && !copy_plain && has_html ==> asked is ReadHtml
            &&& !has_image && !has_files && !copy_plain && !has_html && has_rtf
                ==> asked is ReadRichText
            &&& !has_image && !has_files && (copy_plain || (!has_html && !has_rtf))
                ==> asked is ReadText
        }),
{
}

/// A format that is chosen carries the files and the detector on.
pub proof fn law_chosen_format_forgets_nothing(
    detector: bool,
    copy_plain: bool,
    has_image: bool,
    has_files: bool,
    files: Seq<Seq<char>>,
    has_html: bool,
    has_rtf: bool,
)
    ensures
        match listener::chosen_format(
            detector,
            copy_plain,
            has_image,
            has_files,
            files,
            has_html,
            has_rtf,
        ) {
            ChangePhase::Screenshot { has_files: h, files: f } => h == has_files && f == files,
            ChangePhase::FileImage { files: f } => f == files,
            ChangePhase::FirstSize { files: f } => f == files,
            ChangePhase::PlainText { detector: d } => d == detector,
            _ => true,
        },
{
}

/// A change is looked at in this order: what the clipboard shows, the services, the formats.
pub proof fn law_first_questions(
    manager: ManagerState,
    text: Option<Seq<char>>,
    has_image: bool,
    has_files: bool,
    files: Option<Seq<Seq<char>>>,
    detector: bool,
    now: i64,
)
    requires
        !manager::own_write(
            manager,
            now as u64,
            text::text_or_empty(text),
            has_image,
            has_files,
            listener::list_or_empty(files),
        ),
    ensures
        listener::action_of(PhaseView::Snapshot) is ReadSnapshot,
        ({
            let second = listener::next(
                PhaseView::Snapshot,
                manager,
                EventView::Snapshot { text, has_image, has_files, files },
                now,
            );
            let third = listener::next(
                second,
                manager,
                EventView::Services { database: true, detector },
                now,
            );
            &&& listener::action_of(second) is FindServices
            &&& listener::action_of(third) is ReadFormats
            &&& listener::next(
                second,
                manager,
                EventView::Services { database: false, detector },
                now,
            ) == PhaseView::Done
        }),
        listener::action_of(PhaseView::Done) is Finish,
{
}

/// An image that was saved, from the clipboard or from a file, is read for text, by the path that it
/// was saved under, before its record is made.
pub proof fn law_saved_image_is_read_for_text(
    image: SavedImage<Seq<char>>,
    has_files: bool,
    files: Seq<Seq<char>>,
    manager: ManagerState,
    now: i64,
)
    ensures
        listener::action_of(
            listener::next(
                ChangePhase::Screenshot { has_files, files },
                manager,
                ChangeEvent::ImageSaved { image: Some(image) },
                now,
            ),
        ) == (ChangeAction::ScheduleOcr { path: image.path }),
        listener::action_of(
            listener::next(
                ChangePhase::FileImage { files },
                manager,
                ChangeEvent::ImageSaved { image: Some(image) },
                now,
            ),
        ) == (ChangeAction::ScheduleOcr { path: image.path }),
{
}

/// A file that holds no image is measured, and a screenshot that cannot be saved has the only file
/// tried.
pub proof fn law_failing_images_fall_back(
    has_files: bool,
    files: Seq<Seq<char>>,
    manager: ManagerState,
    now: i64,
)
    ensures
        listener::action_of(
            listener::next(
                ChangePhase::FileImage { files },
                manager,
                ChangeEvent::ImageSaved { image: None },
                now,
            ),
        ) == (ChangeAction::MeasureFile { path: files[0] }),
        has_files && files.len() == 1 ==> listener::action_of(
            listener::next(
                ChangePhase::Screenshot { has_files, files },
                manager,
                ChangeEvent::ImageSaved { image: None },
                now,
            ),
        ) == (ChangeAction::SaveFileImage { path: files[0] }),
{
}

/// The detector gets the text as it was read, as a text, and is to look for everything.
pub proof fn law_detector_gets_the_text(t: Seq<char>, manager: ManagerState, now: i64)
    requires
        !text::blank(t),
    ensures
        listener::action_of(
            listener::next(
                ChangePhase::PlainText { detector: true },
                manager,
                ChangeEvent::TextRead { text: Some(t) },
                now,
            ),
        ) == (ChangeAction::Detect {
            content: t,
            item_type: "text"@,
            options: DetectionOptions {
                detect_url: true,
                detect_email: true,
                detect_path: true,
                detect_color: true,
                detect_code: true,
                detect_markdown: true,
                code_min_length: 10,
            },
        }),
{
}

/// What is detected in a draft of any type changes its type, subtype and searchable text only, and
/// each of them only by what was found.
pub proof fn law_classify(draft: Draft<Seq<char>>, d: Detection<Seq<char>>)
    ensures
        listener::refined(draft, None) == draft,
        ({
            let r = listener::refined(draft, Some(d));
            let markdown = d.is_markdown || d.code_language == Some("markdown"@);
            &&& r.group == draft.group && r.value == draft.value && r.count == draft.count
            &&& r.width == draft.width && r.height == draft.height
            &&& r.item_type == if markdown {
                "formatted"@
            } else if d.is_code {
                "code"@
            } else {
                draft.item_type
            }
            &&& markdown ==> r.subtype == Some("markdown"@) && r.search == draft.search
            &&& !markdown && d.is_code ==> r.search == draft.search && (d.code_language is Some
                ==> r.subtype == d.code_language) && (d.code_language is None ==> r.subtype
                == draft.subtype)
            &&& !markdown && !d.is_code && d.subtype is None ==> r == draft
            &&& !markdown && !d.is_code && d.subtype is Some ==> r.subtype == d.subtype
            &&& !markdown && !d.is_code && d.subtype == Some("color"@) && d.color_normalized
                is Some ==> r.search == d.color_normalized
            &&& !markdown && !d.is_code && (d.subtype != Some("color"@) || d.color_normalized
                is None) ==> r.search == draft.search
        }),
{
}

/// A record takes each field of its draft over, and its identifier and time.
pub proof fn law_record_takes_the_draft_over(draft: Draft<Seq<char>>, id: Seq<char>, time: i64)
    ensures
        ({
            let item = listener::record_of(draft, id, time);
            &&& item.id == id && item.time == time
            &&& item.item_type == Some(draft.item_type) && item.group == Some(draft.group)
            &&& item.value == draft.value && item.search == draft.search
            &&& item.count == draft.count && item.subtype == draft.subtype
            &&& item.width == draft.width && item.height == draft.height
            &&& listener::untouched(item)
        }),
{
}

/// A list of files that may be missing is missing in its view where it is missing itself, and then
/// counts as empty.
pub proof fn law_missing_lists(list: Vec<String>)
    ensures
        listener::list_of(Some(list)) == Some(text::texts(list@)),
        listener::list_of(None::<Vec<String>>) is None,
        listener::list_or_empty(Some(text::texts(list@))) == text::texts(list@),
        listener::list_or_empty(None).len() == 0,
{
}

/// The views of answers hold what the answers hold.
pub proof fn law_event_views(event: ChangeEvent)
    ensures
        match event {
            ChangeEvent::Snapshot { text, has_image, has_files, files } => event@ == (
            EventView::Snapshot {
                text: text::text_of(text),
                has_image,
                has_files,
                files: listener::list_of(files),
            }),
            ChangeEvent::Services { database, detector } => event@ == (EventView::Services {
                database,
                detector,
            }),
            ChangeEvent::Formats { copy_plain, has_image, has_files, files, has_html, has_rtf } => {
                event@ == (EventView::Formats {
                    copy_plain,
                    has_image,
                    has_files,
                    files: listener::list_of(files),
                    has_html,
                    has_rtf,
                })
            },
            ChangeEvent::ImageSaved { image } => match image {
                Some(i) => event@ == (EventView::ImageSaved { image: Some(i@) }),
                None => event@ == (EventView::ImageSaved { image: None }),
            },
            ChangeEvent::Measured { size } => event@ == (EventView::Measured { size }),
            ChangeEvent::RichRead { value, text } => event@ == (EventView::RichRead {
                value: text::text_of(value),
                text: text::text_of(text),
            }),
            ChangeEvent::TextRead { text } => event@ == (EventView::TextRead {
                text: text::text_of(text),
            }),
            ChangeEvent::Detected { detection } => match detection {
                Some(d) => event@ == (EventView::Detected { detection: Some(d@) }),
                None => event@ == (EventView::Detected { detection: None }),
            },
            ChangeEvent::Identified { id } => event@ == (EventView::Identified { id: id@ }),
            ChangeEvent::Inserted { result } => match result {
                Some(i) => event@ == (EventView::Inserted { result: Some(i@) }),
                None => event@ == (EventView::Inserted { result: None }),
            },
            ChangeEvent::Performed => event@ == EventView::Performed,
        },
{
}

/// The views of actions hold what the actions hold.
pub proof fn law_action_views(action: ChangeAction)
    ensures
        match action {
            ChangeAction::SaveFileImage { path } => action@ == (ChangeAction::SaveFileImage {
                path: path@,
            }),
            ChangeAction::MeasureFile { path } => action@ == (ChangeAction::MeasureFile {
                path: path@,
            }),
            ChangeAction::ScheduleOcr { path } => action@ == (ChangeAction::ScheduleOcr {
                path: path@,
            }),
            ChangeAction::Detect { content, item_type, options } => action@ == (
            ChangeAction::Detect { content: content@, item_type: item_type@, options }),
            ChangeAction::Insert { item } => action@ == (ChangeAction::Insert { item: item@ }),
            ChangeAction::Emit { event, duplicate_id } => action@ == (ChangeAction::Emit {
                event: event@,
                duplicate_id: text::text_of(duplicate_id),
            }),
            ChangeAction::ReadSnapshot => action@ is ReadSnapshot,
            ChangeAction::FindServices => action@ is FindServices,
            ChangeAction::ReadFormats => action@ is ReadFormats,
            ChangeAction::SaveScreenshot => action@ is SaveScreenshot,
            ChangeAction::ReadRichText => action@ is ReadRichText,
            ChangeAction::ReadHtml => action@ is ReadHtml,
            ChangeAction::ReadText => action@ is ReadText,
            ChangeAction::NewId => action@ is NewId,
            ChangeAction::PlayAudio => action@ is PlayAudio,
            ChangeAction::Finish => action@ is Finish,
        },
{
}

/// The phases that hold something keep it in their views.
pub proof fn law_phase_views(phase: ChangePhase)
    ensures
        match phase {
            ChangePhase::Formats { detector } => phase@ == (PhaseView::Formats { detector }),
            ChangePhase::Screenshot { has_files, files } => phase@ == (PhaseView::Screenshot {
                has_files,
                files: text::texts(files@),
            }),
            ChangePhase::FileImage { files } => phase@ == (PhaseView::FileImage {
                files: text::texts(files@),
            }),
            ChangePhase::FirstSize { files } => phase@ == (PhaseView::FirstSize {
                files: text::texts(files@),
            }),
            ChangePhase::PlainText { detector } => phase@ == (PhaseView::PlainText { detector }),
            ChangePhase::Ocr { path, draft } => phase@ == (PhaseView::Ocr {
                path: path@,
                draft: draft@,
            }),
            ChangePhase::Detect { content, draft } => phase@ == (PhaseView::Detect {
                content: content@,
                draft: draft@,
            }),
            ChangePhase::NewId { draft } => phase@ == (PhaseView::NewId { draft: draft@ }),
            ChangePhase::Insert { item } => phase@ == (PhaseView::Insert { item: item@ }),
            ChangePhase::Audio { duplicate } => phase@ == (PhaseView::Audio {
                duplicate: text::text_of(duplicate),
            }),
            ChangePhase::Notify { duplicate } => phase@ == (PhaseView::Notify {
                duplicate: text::text_of(duplicate),
            }),
            ChangePhase::Snapshot => phase@ is Snapshot,
            ChangePhase::Services => phase@ is Services,
            ChangePhase::RichText => phase@ is RichText,
            ChangePhase::Html => phase@ is Html,
            ChangePhase::Done => phase@ is Done,
        },
{
}

} // verus!
