//! What happens when the clipboard changes: which record of the history the change becomes.

use vstd::prelude::*;
use crate::clock::now_millis;
use crate::item::{
    copy_text, Detection, DetectionOptions, Draft, InsertItem, InsertResult, SavedImage,
};
use crate::json;
use crate::json::json_of;
use crate::manager;
use crate::manager::{ClipboardManager, ManagerState};
use crate::text;
use crate::text::{chars, is_blank, is_text, joined, low_i32};

verus! {

/// Where the handling of a clipboard change stands. Each phase waits for the answer to one
/// action.
pub enum ChangePhase<T = String, L = Vec<String>> {
    /// What does the clipboard show?
    Snapshot,
    /// Are the database and the detector there?
    Services,
    /// Which formats does the clipboard offer?
    Formats { detector: bool },
    /// Save the image on the clipboard; these are the files beside it.
    Screenshot { has_files: bool, files: L },
    /// Save the image in the only file on the clipboard.
    FileImage { files: L },
    /// How large is the first of the files on the clipboard?
    FirstSize { files: L },
    /// Read the rich text.
    RichText,
    /// Read the page.
    Html,
    /// Read the plain text.
    PlainText { detector: bool },
    /// Have the text in the saved image recognised.
    Ocr { path: T, draft: Draft<T> },
    /// What kind of text is this?
    Detect { content: T, draft: Draft<T> },
    /// Give the record an identifier.
    NewId { draft: Draft<T> },
    /// Add the record to the history.
    Insert { item: InsertItem<T> },
    /// Play the sound of a copy.
    Audio { duplicate: Option<T> },
    /// Tell the user interface.
    Notify { duplicate: Option<T> },
    /// The change has been dealt with.
    Done,
}

/// What is to be done next about a clipboard change.
#[derive(Debug, PartialEq, Eq)]
pub enum ChangeAction<T = String> {
    ReadSnapshot,
    FindServices,
    ReadFormats,
    /// Read the image on the clipboard and save it.
    SaveScreenshot,
    /// Save the image in this file.
    SaveFileImage { path: T },
    /// Find the size of this file.
    MeasureFile { path: T },
    ReadRichText,
    ReadHtml,
    ReadText,
    /// Schedule the recognition of the text in the image in this file, under a new identifier.
    ScheduleOcr { path: T },
    Detect { content: T, item_type: T, options: DetectionOptions },
    /// Make an identifier.
    NewId,
    Insert { item: InsertItem<T> },
    PlayAudio,
    /// Send this event, with the identifier of the record that the new one took the place of.
    Emit { event: T, duplicate_id: Option<T> },
    Finish,
}

/// The answer to an action.
pub enum ChangeEvent<T = String, L = Vec<String>> {
    Snapshot { text: Option<T>, has_image: bool, has_files: bool, files: Option<L> },
    Services { database: bool, detector: bool },
    Formats {
        copy_plain: bool,
        has_image: bool,
        has_files: bool,
        files: Option<L>,
        has_html: bool,
        has_rtf: bool,
    },
    /// The image was saved, or could not be read or saved.
    ImageSaved { image: Option<SavedImage<T>> },
    /// The size of the file, if it could be found.
    Measured { size: Option<u64> },
    /// The rich text or the page, and the plain text, as far as they could be read.
    RichRead { value: Option<T>, text: Option<T> },
    /// The plain text, if it could be read.
    TextRead { text: Option<T> },
    /// What the detector found, if it did not fail.
    Detected { detection: Option<Detection<T>> },
    Identified { id: T },
    /// How the history took the record in, if it did.
    Inserted { result: Option<InsertResult<T>> },
    /// The action has been performed.
    Performed,
}

pub open spec fn list_of(list: Option<Vec<String>>) -> Option<Seq<Seq<char>>> {
    match list {
        Some(l) => Some(text::texts(l@)),
        None => None,
    }
}

/// The files of a list that may be missing, or none.
pub open spec fn list_or_empty(list: Option<Seq<Seq<char>>>) -> Seq<Seq<char>> {
    match list {
        Some(l) => l,
        None => Seq::empty(),
    }
}

impl View for ChangePhase {
    type V = ChangePhase<Seq<char>, Seq<Seq<char>>>;

    open spec fn view(&self) -> ChangePhase<Seq<char>, Seq<Seq<char>>> {
        match *self {
            ChangePhase::Snapshot => ChangePhase::Snapshot,
            ChangePhase::Services => ChangePhase::Services,
            ChangePhase::Formats { detector } => ChangePhase::Formats { detector },
            ChangePhase::Screenshot { has_files, files } => ChangePhase::Screenshot {
                has_files,
                files: text::texts(files@),
            },
            ChangePhase::FileImage { files } => ChangePhase::FileImage {
                files: text::texts(files@),
            },
            ChangePhase::FirstSize { files } => ChangePhase::FirstSize {
                files: text::texts(files@),
            },
            ChangePhase::RichText => ChangePhase::RichText,
            ChangePhase::Html => ChangePhase::Html,
            ChangePhase::PlainText { detector } => ChangePhase::PlainText { detector },
            ChangePhase::Ocr { path, draft } => ChangePhase::Ocr { path: path@, draft: draft@ },
            ChangePhase::Detect { content, draft } => ChangePhase::Detect {
                content: content@,
                draft: draft@,
            },
            ChangePhase::NewId { draft } => ChangePhase::NewId { draft: draft@ },
            ChangePhase::Insert { item } => ChangePhase::Insert { item: item@ },
            ChangePhase::Audio { duplicate } => ChangePhase::Audio {
                duplicate: text::text_of(duplicate),
            },
            ChangePhase::Notify { duplicate } => ChangePhase::Notify {
                duplicate: text::text_of(duplicate),
            },
            ChangePhase::Done => ChangePhase::Done,
        }
    }
}

impl View for ChangeAction {
    type V = ChangeAction<Seq<char>>;

    open spec fn view(&self) -> ChangeAction<Seq<char>> {
        match *self {
            ChangeAction::ReadSnapshot => ChangeAction::ReadSnapshot,
            ChangeAction::FindServices => ChangeAction::FindServices,
            ChangeAction::ReadFormats => ChangeAction::ReadFormats,
            ChangeAction::SaveScreenshot => ChangeAction::SaveScreenshot,
            ChangeAction::SaveFileImage { path } => ChangeAction::SaveFileImage { path: path@ },
            ChangeAction::MeasureFile { path } => ChangeAction::MeasureFile { path: path@ },
            ChangeAction::ReadRichText => ChangeAction::ReadRichText,
            ChangeAction::ReadHtml => ChangeAction::ReadHtml,
            ChangeAction::ReadText => ChangeAction::ReadText,
            ChangeAction::ScheduleOcr { path } => ChangeAction::ScheduleOcr { path: path@ },
            ChangeAction::Detect { content, item_type, options } => ChangeAction::Detect {
                content: content@,
                item_type: item_type@,
                options,
            },
            ChangeAction::NewId => ChangeAction::NewId,
            ChangeAction::Insert { item } => ChangeAction::Insert { item: item@ },
            ChangeAction::PlayAudio => ChangeAction::PlayAudio,
            ChangeAction::Emit { event, duplicate_id } => ChangeAction::Emit {
                event: event@,
                duplicate_id: text::text_of(duplicate_id),
            },
            ChangeAction::Finish => ChangeAction::Finish,
        }
    }
}

impl View for ChangeEvent {
    type V = ChangeEvent<Seq<char>, Seq<Seq<char>>>;

    open spec fn view(&self) -> ChangeEvent<Seq<char>, Seq<Seq<char>>> {
        match *self {
            ChangeEvent::Snapshot { text, has_image, has_files, files } => ChangeEvent::Snapshot {
                text: text::text_of(text),
                has_image,
                has_files,
                files: list_of(files),
            },
            ChangeEvent::Services { database, detector } => ChangeEvent::Services {
                database,
                detector,
            },
            ChangeEvent::Formats {
                copy_plain,
                has_image,
                has_files,
                files,
                has_html,
                has_rtf,
            } => ChangeEvent::Formats {
                copy_plain,
                has_image,
                has_files,
                files: list_of(files),
                has_html,
                has_rtf,
            },
            ChangeEvent::ImageSaved { image } => ChangeEvent::ImageSaved {
                image: match image {
                    Some(i) => Some(i@),
                    None => None,
                },
            },
            ChangeEvent::Measured { size } => ChangeEvent::Measured { size },
            ChangeEvent::RichRead { value, text } => ChangeEvent::RichRead {
                value: text::text_of(value),
                text: text::text_of(text),
            },
            ChangeEvent::TextRead { text } => ChangeEvent::TextRead { text: text::text_of(text) },
            ChangeEvent::Detected { detection } => ChangeEvent::Detected {
                detection: match detection {
                    Some(d) => Some(d@),
                    None => None,
                },
            },
            ChangeEvent::Identified { id } => ChangeEvent::Identified { id: id@ },
            ChangeEvent::Inserted { result } => ChangeEvent::Inserted {
                result: match result {
                    Some(i) => Some(i@),
                    None => None,
                },
            },
            ChangeEvent::Performed => ChangeEvent::Performed,
        }
    }
}

/// A `ChangePhase` with its texts as sequences of characters.
pub type PhaseView = ChangePhase<Seq<char>, Seq<Seq<char>>>;

/// A `ChangeEvent` with its texts as sequences of characters.
pub type EventView = ChangeEvent<Seq<char>, Seq<Seq<char>>>;

/// What the history keeps of an image that was saved.
pub open spec fn image_draft(image: SavedImage<Seq<char>>) -> Draft<Seq<char>> {
    Draft {
        item_type: "image"@,
        group: "image"@,
        value: Some(image.path),
        search: None,
        count: Some(image.file_size),
        subtype: Some("image"@),
        width: Some(text::wrap_i32(image.width as int) as i32),
        height: Some(text::wrap_i32(image.height as int) as i32),
    }
}

/// What the history keeps of a list of files.
pub open spec fn files_draft(files: Seq<Seq<char>>, count: i32) -> Draft<Seq<char>> {
    Draft {
        item_type: "files"@,
        group: "files"@,
        value: Some(json::json_array(files)),
        search: Some(text::join(files, " "@)),
        count: Some(count),
        subtype: None,
        width: None,
        height: None,
    }
}

/// The size of a text as the history counts it: its characters, cut down to 32 bits.
pub open spec fn text_count(text: Seq<char>) -> i32 {
    text::wrap_i32(text.len() as int) as i32
}

/// The size of a list of files as the history counts it: the bytes of the first one, cut down to 32
/// bits. Where they are not known, one file counts as nothing and several as one.
pub open spec fn files_count(files: Seq<Seq<char>>, size: Option<u64>) -> i32 {
    match size {
        Some(n) => text::wrap_i32(n as int) as i32,
        None => if files.len() == 1 {
            0
        } else {
            1
        },
    }
}

/// What the history keeps of a rich text or a page: `kind` tells which.
pub open spec fn rich_draft(kind: Seq<char>, value: Seq<char>, text: Option<Seq<char>>) -> Draft<
    Seq<char>,
> {
    Draft {
        item_type: "formatted"@,
        group: "text"@,
        value: Some(value),
        search: text,
        count: match text {
            Some(t) => Some(text_count(t)),
            None => None,
        },
        subtype: Some(kind),
        width: None,
        height: None,
    }
}

/// What the history keeps of a plain text, before anything has been detected in it.
pub open spec fn text_draft(text: Seq<char>) -> Draft<Seq<char>> {
    Draft {
        item_type: "text"@,
        group: "text"@,
        value: Some(text),
        search: Some(text),
        count: Some(text_count(text)),
        subtype: None,
        width: None,
        height: None,
    }
}

/// The first of two texts that is there.
pub open spec fn either(first: Option<Seq<char>>, second: Option<Seq<char>>) -> Option<Seq<char>> {
    match first {
        Some(_) => first,
        None => second,
    }
}

/// What the history keeps of a plain text in which this has been detected: Markdown becomes a
/// formatted text, code a type of its own with its language, and another finding a subtype. A
/// colour is searched for by its normal form.
pub open spec fn refined(
    draft: Draft<Seq<char>>,
    detection: Option<Detection<Seq<char>>>,
) -> Draft<Seq<char>> {
    match detection {
        None => draft,
        Some(d) => if d.is_markdown || d.code_language == Some("markdown"@) {
            Draft { item_type: "formatted"@, subtype: Some("markdown"@), ..draft }
        } else if d.is_code {
            Draft {
                item_type: "code"@,
                subtype: either(d.code_language, draft.subtype),
                ..draft
            }
        } else if d.subtype == Some("color"@) {
            Draft {
                subtype: d.subtype,
                search: either(d.color_normalized, draft.search),
                ..draft
            }
        } else {
            Draft { subtype: either(d.subtype, draft.subtype), ..draft }
        },
    }
}

/// The record that is added to the history.
pub open spec fn record_of(draft: Draft<Seq<char>>, id: Seq<char>, time: i64) -> InsertItem<
    Seq<char>,
> {
    InsertItem {
        id,
        item_type: Some(draft.item_type),
        group: Some(draft.group),
        value: draft.value,
        search: draft.search,
        count: draft.count,
        width: draft.width,
        height: draft.height,
        favorite: 0,
        time,
        note: None,
        subtype: draft.subtype,
        deleted: Some(0),
        sync_status: Some("not_synced"@),
        source_app_name: None,
        source_app_icon: None,
        position: None,
    }
}

/// What is read from the clipboard, given the formats that it offers: an image before files, files
/// before text, and formatted text before plain text unless only plain text is wanted.
pub open spec fn chosen_format(
    detector: bool,
    copy_plain: bool,
    has_image: bool,
    has_files: bool,
    files: Seq<Seq<char>>,
    has_html: bool,
    has_rtf: bool,
) -> PhaseView {
    if has_image {
        ChangePhase::Screenshot { has_files, files }
    } else if has_files && files.len() == 1 {
        ChangePhase::FileImage { files }
    } else if has_files && files.len() == 0 {
        ChangePhase::NewId { draft: files_draft(files, files_count(files, None)) }
    } else if has_files {
        ChangePhase::FirstSize { files }
    } else if !copy_plain && has_html {
        ChangePhase::Html
    } else if !copy_plain && has_rtf {
        ChangePhase::RichText
    } else {
        ChangePhase::PlainText { detector }
    }
}

/// The phase after an answer, with the clock at `now`. An answer to another action than the
/// pending one changes nothing.
pub open spec fn next(
    phase: PhaseView,
    manager: ManagerState,
    event: EventView,
    now: i64,
) -> PhaseView {
    match (phase, event) {
        (
            ChangePhase::Snapshot,
            ChangeEvent::Snapshot { text, has_image, has_files, files },
        ) => if manager::own_write(
            manager,
            now as u64,
            text::text_or_empty(text),
            has_image,
            has_files,
            list_or_empty(files),
        ) {
            ChangePhase::Done
        } else {
            ChangePhase::Services
        },
        (ChangePhase::Services, ChangeEvent::Services { database, detector }) => if database {
            ChangePhase::Formats { detector }
        } else {
            ChangePhase::Done
        },
        (
            ChangePhase::Formats { detector },
            ChangeEvent::Formats { copy_plain, has_image, has_files, files, has_html, has_rtf },
        ) => chosen_format(
            detector,
            copy_plain,
            has_image,
            has_files,
            list_or_empty(files),
            has_html,
            has_rtf,
        ),
        (
            ChangePhase::Screenshot { has_files, files },
            ChangeEvent::ImageSaved { image },
        ) => match image {
            Some(i) => ChangePhase::Ocr { path: i.path, draft: image_draft(i) },
            None => if has_files && files.len() == 1 {
                ChangePhase::FileImage { files }
            } else {
                ChangePhase::Done
            },
        },
        (ChangePhase::FileImage { files }, ChangeEvent::ImageSaved { image }) => match image {
            Some(i) => ChangePhase::Ocr { path: i.path, draft: image_draft(i) },
            None => ChangePhase::FirstSize { files },
        },
        (ChangePhase::FirstSize { files }, ChangeEvent::Measured { size }) => ChangePhase::NewId {
            draft: files_draft(files, files_count(files, size)),
        },
        (ChangePhase::RichText, ChangeEvent::RichRead { value, text }) => match value {
            Some(v) => ChangePhase::NewId { draft: rich_draft("rtf"@, v, text) },
            None => ChangePhase::Done,
        },
        (ChangePhase::Html, ChangeEvent::RichRead { value, text }) => match value {
            Some(v) => ChangePhase::NewId { draft: rich_draft("html"@, v, text) },
            None => ChangePhase::Done,
        },
        (ChangePhase::PlainText { detector }, ChangeEvent::TextRead { text }) => match text {
            Some(t) => if text::blank(t) {
                ChangePhase::Done
            } else if detector {
                ChangePhase::Detect { content: t, draft: text_draft(t) }
            } else {
                ChangePhase::NewId { draft: text_draft(t) }
            },
            None => ChangePhase::Done,
        },
        (ChangePhase::Ocr { draft, .. }, ChangeEvent::Performed) => ChangePhase::NewId { draft },
        (
            ChangePhase::Detect { draft, .. },
            ChangeEvent::Detected { detection },
        ) => ChangePhase::NewId { draft: refined(draft, detection) },
        (ChangePhase::NewId { draft }, ChangeEvent::Identified { id }) => ChangePhase::Insert {
            item: record_of(draft, id, now),
        },
        (ChangePhase::Insert { .. }, ChangeEvent::Inserted { result }) => match result {
            Some(r) => ChangePhase::Audio {
                duplicate: if r.is_update {
                    r.insert_id
                } else {
                    None
                },
            },
            None => ChangePhase::Done,
        },
        (ChangePhase::Audio { duplicate }, ChangeEvent::Performed) => ChangePhase::Notify {
            duplicate,
        },
        (ChangePhase::Notify { .. }, ChangeEvent::Performed) => ChangePhase::Done,
        _ => phase,
    }
}

/// The action whose answer a phase waits for.
pub open spec fn action_of(phase: PhaseView) -> ChangeAction<Seq<char>> {
    match phase {
        ChangePhase::Snapshot => ChangeAction::ReadSnapshot,
        ChangePhase::Services => ChangeAction::FindServices,
        ChangePhase::Formats { .. } => ChangeAction::ReadFormats,
        ChangePhase::Screenshot { .. } => ChangeAction::SaveScreenshot,
        ChangePhase::FileImage { files } => ChangeAction::SaveFileImage { path: files[0] },
        ChangePhase::FirstSize { files } => ChangeAction::MeasureFile { path: files[0] },
        ChangePhase::RichText => ChangeAction::ReadRichText,
        ChangePhase::Html => ChangeAction::ReadHtml,
        ChangePhase::PlainText { .. } => ChangeAction::ReadText,
        ChangePhase::Ocr { path, .. } => ChangeAction::ScheduleOcr { path },
        ChangePhase::Detect { content, draft } => ChangeAction::Detect {
            content,
            item_type: draft.item_type,
            options: DetectionOptions {
                detect_url: true,
                detect_email: true,
                detect_path: true,
                detect_color: true,
                detect_code: true,
                detect_markdown: true,
                code_min_length: 10,
            },
        },
        ChangePhase::NewId { .. } => ChangeAction::NewId,
        ChangePhase::Insert { item } => ChangeAction::Insert { item },
        ChangePhase::Audio { .. } => ChangeAction::PlayAudio,
        ChangePhase::Notify { duplicate } => ChangeAction::Emit {
            event: "plugin:eco-clipboard://database_updated"@,
            duplicate_id: duplicate,
        },
        ChangePhase::Done => ChangeAction::Finish,
    }
}

/// A phase that names a file has one to name.
pub open spec fn names_a_file(phase: PhaseView) -> bool {
    match phase {
        ChangePhase::FileImage { files } => files.len() == 1,
        ChangePhase::FirstSize { files } => files.len() > 0,
        _ => true,
    }
}

fn make_image_draft(image: SavedImage) -> (r: Draft)
    ensures
        r@ == image_draft(image@),
{
    Draft {
        item_type: "image".to_string(),
        group: "image".to_string(),
        value: Some(image.path),
        search: None,
        count: Some(image.file_size),
        subtype: Some("image".to_string()),
        width: Some(low_i32(image.width as u64)),
        height: Some(low_i32(image.height as u64)),
    }
}

/// What the history keeps of a list of files, given the list as JSON.
pub fn draft_files(files: &Vec<String>, json: Option<String>, count: i32) -> (r: Draft)
    ensures
        r@ == (Draft {
            item_type: "files"@,
            group: "files"@,
            value: text::text_of(json),
            search: Some(text::join(text::texts(files@), " "@)),
            count: Some(count),
            subtype: None,
            width: None,
            height: None,
        }),
{
    Draft {
        item_type: "files".to_string(),
        group: "files".to_string(),
        value: json,
        search: Some(joined(files, " ")),
        count: Some(count),
        subtype: None,
        width: None,
        height: None,
    }
}

fn make_files_draft(files: &Vec<String>, count: i32) -> (r: Draft)
    ensures
        r@ == files_draft(text::texts(files@), count),
{
    draft_files(files, json_of(files), count)
}

fn count_of(text: &str) -> (r: i32)
    ensures
        r == text_count(text@),
{
    let all = chars(text);
    low_i32(all.len() as u64)
}

fn make_rich_draft(kind: &str, value: String, text: Option<String>) -> (r: Draft)
    ensures
        r@ == rich_draft(kind@, value@, text::text_of(text)),
{
    let count = match &text {
        Some(t) => Some(count_of(t.as_str())),
        None => None,
    };
    Draft {
        item_type: "formatted".to_string(),
        group: "text".to_string(),
        value: Some(value),
        search: text,
        count,
        subtype: Some(kind.to_string()),
        width: None,
        height: None,
    }
}

fn make_text_draft(text: String) -> (r: Draft)
    ensures
        r@ == text_draft(text@),
{
    let count = count_of(text.as_str());
    Draft {
        item_type: "text".to_string(),
        group: "text".to_string(),
        value: Some(text.clone()),
        search: Some(text),
        count: Some(count),
        subtype: None,
        width: None,
        height: None,
    }
}

fn first_of(first: Option<String>, second: Option<String>) -> (r: Option<String>)
    ensures
        text::text_of(r) == either(text::text_of(first), text::text_of(second)),
{
    match first {
        Some(s) => Some(s),
        None => second,
    }
}

/// What the history keeps of a plain text, given what the detector found in it, if it found
/// anything.
pub fn classify(draft: Draft, detection: Option<Detection>) -> (r: Draft)
    ensures
        r@ == refined(
            draft@,
            match detection {
                Some(d) => Some(d@),
                None => None,
            },
        ),
{
    match detection {
        None => draft,
        Some(d) => {
            if d.is_markdown || is_text(&d.code_language, "markdown") {
                Draft {
                    item_type: "formatted".to_string(),
                    subtype: Some("markdown".to_string()),
                    ..draft
                }
            } else if d.is_code {
                let subtype = first_of(d.code_language, draft.subtype);
                Draft { item_type: "code".to_string(), subtype, ..draft }
            } else if is_text(&d.subtype, "color") {
                let search = first_of(d.color_normalized, draft.search);
                Draft { subtype: d.subtype, search, ..draft }
            } else {
                let subtype = first_of(d.subtype, draft.subtype);
                Draft { subtype, ..draft }
            }
        },
    }
}

/// The record that is added to the history.
pub fn make_record(draft: Draft, id: String, time: i64) -> (r: InsertItem)
    ensures
        r@ == record_of(draft@, id@, time),
{
    InsertItem {
        id,
        item_type: Some(draft.item_type),
        group: Some(draft.group),
        value: draft.value,
        search: draft.search,
        count: draft.count,
        width: draft.width,
        height: draft.height,
        favorite: 0,
        time,
        note: None,
        subtype: draft.subtype,
        deleted: Some(0),
        sync_status: Some("not_synced".to_string()),
        source_app_name: None,
        source_app_icon: None,
        position: None,
    }
}

/// What is read from the clipboard, given the formats that it offers.
pub fn choose_format(
    detector: bool,
    copy_plain: bool,
    has_image: bool,
    has_files: bool,
    files: Vec<String>,
    has_html: bool,
    has_rtf: bool,
) -> (r: ChangePhase)
    ensures
        r@ == chosen_format(
            detector,
            copy_plain,
            has_image,
            has_files,
            text::texts(files@),
            has_html,
            has_rtf,
        ),
        names_a_file(r@),
{
    if has_image {
        ChangePhase::Screenshot { has_files, files }
    } else if has_files {
        if files.len() == 1 {
            ChangePhase::FileImage { files }
        } else if files.len() == 0 {
            ChangePhase::NewId { draft: make_files_draft(&files, 1) }
        } else {
            ChangePhase::FirstSize { files }
        }
    } else if !copy_plain && !has_html && has_rtf {
        ChangePhase::RichText
    } else if !copy_plain && has_html {
        ChangePhase::Html
    } else {
        ChangePhase::PlainText { detector }
    }
}

fn files_or_empty(files: Option<Vec<String>>) -> (r: Vec<String>)
    ensures
        text::texts(r@) == list_or_empty(list_of(files)),
{
    match files {
        Some(l) => l,
        None => {
            let r: Vec<String> = Vec::new();
            assert(text::texts(r@) =~= Seq::<Seq<char>>::empty());
            r
        },
    }
}

/// The handling of one clipboard change.
pub struct ClipboardListen {
    phase: ChangePhase,
}

impl View for ClipboardListen {
    type V = PhaseView;

    closed spec fn view(&self) -> PhaseView {
        self.phase@
    }
}

impl ClipboardListen {
    /// The phases that handling a change can reach.
    #[verifier::type_invariant]
    spec fn reachable(self) -> bool {
        names_a_file(self.phase@)
    }

    /// The handling of a change that nothing is known of yet.
    pub fn new() -> (r: Self)
        ensures
            r@ == PhaseView::Snapshot,
    {
        ClipboardListen { phase: ChangePhase::Snapshot }
    }

    /// The action whose answer is waited for.
    pub fn action(&self) -> (r: ChangeAction)
        ensures
            r@ == action_of(self@),
    {
        proof {
            use_type_invariant(self);
        }
        match &self.phase {
            ChangePhase::Snapshot => ChangeAction::ReadSnapshot,
            ChangePhase::Services => ChangeAction::FindServices,
            ChangePhase::Formats { .. } => ChangeAction::ReadFormats,
            ChangePhase::Screenshot { .. } => ChangeAction::SaveScreenshot,
            ChangePhase::FileImage { files } => ChangeAction::SaveFileImage {
                path: files[0].clone(),
            },
            ChangePhase::FirstSize { files } => ChangeAction::MeasureFile {
                path: files[0].clone(),
            },
            ChangePhase::RichText => ChangeAction::ReadRichText,
            ChangePhase::Html => ChangeAction::ReadHtml,
            ChangePhase::PlainText { .. } => ChangeAction::ReadText,
            ChangePhase::Ocr { path, .. } => ChangeAction::ScheduleOcr { path: path.clone() },
            ChangePhase::Detect { content, draft } => ChangeAction::Detect {
                content: content.clone(),
                item_type: draft.item_type.clone(),
                options: DetectionOptions {
                    detect_url: true,
                    detect_email: true,
                    detect_path: true,
                    detect_color: true,
                    detect_code: true,
                    detect_markdown: true,
                    code_min_length: 10,
                },
            },
            ChangePhase::NewId { .. } => ChangeAction::NewId,
            ChangePhase::Insert { item } => ChangeAction::Insert { item: item.copy() },
            ChangePhase::Audio { .. } => ChangeAction::PlayAudio,
            ChangePhase::Notify { duplicate } => ChangeAction::Emit {
                event: "plugin:eco-clipboard://database_updated".to_string(),
                duplicate_id: copy_text(duplicate),
            },
            ChangePhase::Done => ChangeAction::Finish,
        }
    }

    /// Takes the answer to the pending action in, by the clock.
    pub fn on_clipboard_change(self, manager: &ClipboardManager, event: ChangeEvent) -> (r: Self)
        ensures
            exists|now: i64| 0 <= now && r@ == #[trigger] next(self@, manager@, event@, now),
    {
        let now = now_millis();
        self.on_clipboard_change_at(manager, event, now)
    }

    /// Takes the answer to the pending action in, with the clock at `now`.
    pub fn on_clipboard_change_at(
        self,
        manager: &ClipboardManager,
        event: ChangeEvent,
        now: i64,
    ) -> (r: Self)
        ensures
            r@ == next(self@, manager@, event@, now),
    {
        proof {
            use_type_invariant(&self);
        }
        let phase = match (self.phase, event) {
            (
                ChangePhase::Snapshot,
                ChangeEvent::Snapshot { text, has_image, has_files, files },
            ) => {
                let shown = match text {
                    Some(t) => t,
                    None => String::new(),
                };
                let list = files_or_empty(files);
                if manager.is_own_write_at(
                    #[verifier::truncate] (now as u64),
                    shown.as_str(),
                    has_image,
                    has_files,
                    list.as_slice(),
                ) {
                    ChangePhase::Done
                } else {
                    ChangePhase::Services
                }
            },
            (ChangePhase::Services, ChangeEvent::Services { database, detector }) => {
                if database {
                    ChangePhase::Formats { detector }
                } else {
                    ChangePhase::Done
                }
            },
            (
                ChangePhase::Formats { detector },
                ChangeEvent::Formats { copy_plain, has_image, has_files, files, has_html, has_rtf },
            ) => choose_format(
                detector,
                copy_plain,
                has_image,
                has_files,
                files_or_empty(files),
                has_html,
                has_rtf,
            ),
            (
                ChangePhase::Screenshot { has_files, files },
                ChangeEvent::ImageSaved { image },
            ) => match image {
                Some(i) => ChangePhase::Ocr { path: i.path.clone(), draft: make_image_draft(i) },
                None => {
                    if has_files && files.len() == 1 {
                        ChangePhase::FileImage { files }
                    } else {
                        ChangePhase::Done
                    }
                },
            },
            (ChangePhase::FileImage { files }, ChangeEvent::ImageSaved { image }) => match image {
                Some(i) => ChangePhase::Ocr { path: i.path.clone(), draft: make_image_draft(i) },
                None => ChangePhase::FirstSize { files },
            },
            (ChangePhase::FirstSize { files }, ChangeEvent::Measured { size }) => {
                let count = match size {
                    Some(n) => low_i32(n),
                    None => {
                        if files.len() == 1 {
                            0
                        } else {
                            1
                        }
                    },
                };
                ChangePhase::NewId { draft: make_files_draft(&files, count) }
            },
            (ChangePhase::RichText, ChangeEvent::RichRead { value, text }) => match value {
                Some(v) => ChangePhase::NewId { draft: make_rich_draft("rtf", v, text) },
                None => ChangePhase::Done,
            },
            (ChangePhase::Html, ChangeEvent::RichRead { value, text }) => match value {
                Some(v) => ChangePhase::NewId { draft: make_rich_draft("html", v, text) },
                None => ChangePhase::Done,
            },
            (ChangePhase::PlainText { detector }, ChangeEvent::TextRead { text }) => match text {
                Some(t) => {
                    if is_blank(t.as_str()) {
                        ChangePhase::Done
                    } else if detector {
                        ChangePhase::Detect { content: t.clone(), draft: make_text_draft(t) }
                    } else {
                        ChangePhase::NewId { draft: make_text_draft(t) }
                    }
                },
                None => ChangePhase::Done,
            },
            (ChangePhase::Ocr { draft, .. }, ChangeEvent::Performed) => ChangePhase::NewId {
                draft,
            },
            (
                ChangePhase::Detect { draft, .. },
                ChangeEvent::Detected { detection },
            ) => ChangePhase::NewId { draft: classify(draft, detection) },
            (ChangePhase::NewId { draft }, ChangeEvent::Identified { id }) => ChangePhase::Insert {
                item: make_record(draft, id, now),
            },
            (ChangePhase::Insert { .. }, ChangeEvent::Inserted { result }) => match result {
                Some(i) => ChangePhase::Audio {
                    duplicate: if i.is_update {
                        i.insert_id
                    } else {
                        None
                    },
                },
                None => ChangePhase::Done,
            },
            (ChangePhase::Audio { duplicate }, ChangeEvent::Performed) => ChangePhase::Notify {
                duplicate,
            },
            (ChangePhase::Notify { .. }, ChangeEvent::Performed) => ChangePhase::Done,
            (phase, _) => phase,
        };
        ClipboardListen { phase }
    }
}

/// The answer is one to the action that the phase waits for.
pub open spec fn answers(phase: PhaseView, event: EventView) -> bool {
    match phase {
        ChangePhase::Snapshot => event is Snapshot,
        ChangePhase::Services => event is Services,
        ChangePhase::Formats { .. } => event is Formats,
        ChangePhase::Screenshot { .. } => event is ImageSaved,
        ChangePhase::FileImage { .. } => event is ImageSaved,
        ChangePhase::FirstSize { .. } => event is Measured,
        ChangePhase::RichText => event is RichRead,
        ChangePhase::Html => event is RichRead,
        ChangePhase::PlainText { .. } => event is TextRead,
        ChangePhase::Ocr { .. } => event is Performed,
        ChangePhase::Detect { .. } => event is Detected,
        ChangePhase::NewId { .. } => event is Identified,
        ChangePhase::Insert { .. } => event is Inserted,
        ChangePhase::Audio { .. } => event is Performed,
        ChangePhase::Notify { .. } => event is Performed,
        ChangePhase::Done => false,
    }
}

/// How many actions a phase has before it, at most.
pub open spec fn remaining(phase: PhaseView) -> nat {
    match phase {
        ChangePhase::Snapshot => 11,
        ChangePhase::Services => 10,
        ChangePhase::Formats { .. } => 9,
        ChangePhase::Screenshot { .. } => 8,
        ChangePhase::FileImage { .. } => 7,
        ChangePhase::FirstSize { .. } => 6,
        ChangePhase::RichText => 6,
        ChangePhase::Html => 6,
        ChangePhase::PlainText { .. } => 6,
        ChangePhase::Ocr { .. } => 5,
        ChangePhase::Detect { .. } => 5,
        ChangePhase::NewId { .. } => 4,
        ChangePhase::Insert { .. } => 3,
        ChangePhase::Audio { .. } => 2,
        ChangePhase::Notify { .. } => 1,
        ChangePhase::Done => 0,
    }
}

/// One answer, with what the manager held and the clock showed when it came.
pub struct Answer {
    pub manager: ManagerState,
    pub event: EventView,
    pub now: i64,
}

/// The phase after several answers.
pub open spec fn run(phase: PhaseView, answered: Seq<Answer>) -> PhaseView
    decreases answered.len(),
{
    if answered.len() == 0 {
        phase
    } else {
        let a = answered.last();
        next(run(phase, answered.drop_last()), a.manager, a.event, a.now)
    }
}

/// The shapes of the records of the history: an image with its size and no text to search by yet, a
/// list of files, or a text.
pub open spec fn known_draft(draft: Draft<Seq<char>>) -> bool {
    &&& draft.value is Some
    &&& {
        ||| {
            &&& draft.item_type == "image"@ && draft.group == "image"@
            &&& draft.subtype == Some("image"@)
            &&& draft.search is None
            &&& draft.count is Some && draft.width is Some && draft.height is Some
        }
        ||| {
            &&& draft.item_type == "files"@ && draft.group == "files"@
            &&& draft.subtype is None
            &&& draft.search is Some && draft.count is Some
            &&& draft.width is None && draft.height is None
        }
        ||| {
            &&& draft.item_type == "text"@ || draft.item_type == "code"@
            &&& draft.group == "text"@
            &&& draft.search is Some && draft.count is Some
            &&& draft.width is None && draft.height is None
        }
        ||| {
            &&& draft.item_type == "formatted"@ && draft.group == "text"@
            &&& draft.subtype is Some
            &&& draft.search is Some <==> draft.count is Some
            &&& draft.width is None && draft.height is None
        }
    }
}

/// What a record says of the content of the clipboard.
pub open spec fn draft_of(item: InsertItem<Seq<char>>) -> Draft<Seq<char>> {
    Draft {
        item_type: text::text_or_empty(item.item_type),
        group: text::text_or_empty(item.group),
        value: item.value,
        search: item.search,
        count: item.count,
        subtype: item.subtype,
        width: item.width,
        height: item.height,
    }
}

/// A record that nothing has been done to yet: no favourite, not deleted, not synchronised, without
/// a note or a place, and with nothing said of the program that it comes from.
pub open spec fn untouched(item: InsertItem<Seq<char>>) -> bool {
    &&& item.item_type is Some && item.group is Some
    &&& item.favorite == 0
    &&& item.note is None
    &&& item.deleted == Some(0i32)
    &&& item.sync_status == Some("not_synced"@)
    &&& item.source_app_name is None && item.source_app_icon is None
    &&& item.position is None
}

/// What a phase is about to add to the history has one of the shapes of its records, and is
/// untouched.
pub open spec fn known_phase(phase: PhaseView) -> bool {
    match phase {
        ChangePhase::Ocr { draft, .. } => known_draft(draft),
        ChangePhase::Detect { draft, .. } => known_draft(draft) && draft.item_type == "text"@,
        ChangePhase::NewId { draft } => known_draft(draft),
        ChangePhase::Insert { item } => known_draft(draft_of(item)) && untouched(item),
        _ => true,
    }
}

/// Each answer to the pending action brings the handling of a change closer to its end, and any
/// other answer leaves it where it is.
pub proof fn law_change_comes_to_an_end(
    phase: PhaseView,
    manager: ManagerState,
    event: EventView,
    now: i64,
)
    ensures
        answers(phase, event) ==> remaining(next(phase, manager, event, now)) < remaining(phase),
        !answers(phase, event) ==> next(phase, manager, event, now) == phase,
{
}

/// Whatever the answers are, all that a clipboard change adds to the history has one of the known
/// shapes and is untouched.
pub proof fn law_only_known_records_are_added(answered: Seq<Answer>)
    ensures
        known_phase(run(PhaseView::Snapshot, answered)),
    decreases answered.len(),
{
    if answered.len() > 0 {
        law_only_known_records_are_added(answered.drop_last());
        let phase = run(PhaseView::Snapshot, answered.drop_last());
        lemma_known_step(phase, answered.last());
    }
}

proof fn lemma_known_step(phase: PhaseView, a: Answer)
    requires
        known_phase(phase),
    ensures
        known_phase(next(phase, a.manager, a.event, a.now)),
{
    reveal_strlit("text");
    reveal_strlit("image");
    reveal_strlit("files");
    reveal_strlit("formatted");
    assert("text"@.len() != "formatted"@.len());
    assert("text"@.len() != "image"@.len());
    assert("text"@.len() != "files"@.len());
}

/// A clipboard change adds one record at most: once it has a record to add, no answers lead to
/// another one.
pub proof fn law_at_most_one_record_is_added(
    item: InsertItem<Seq<char>>,
    answered: Seq<Answer>,
)
    ensures
        run(ChangePhase::Insert { item }, answered) matches ChangePhase::Insert { item: later }
            ==> later == item,
        remaining(run(ChangePhase::Insert { item }, answered)) <= 3,
        remaining(run(ChangePhase::Insert { item }, answered)) == 3 ==> run(
            ChangePhase::Insert { item },
            answered,
        ) == (PhaseView::Insert { item }),
    decreases answered.len(),
{
    if answered.len() > 0 {
        law_at_most_one_record_is_added(item, answered.drop_last());
        let phase = run(ChangePhase::Insert { item }, answered.drop_last());
        let a = answered.last();
        law_change_comes_to_an_end(phase, a.manager, a.event, a.now);
    }
}

/// How everything that the handling of one change asks for turns out.
pub struct ChangeAnswers {
    /// What the manager holds, and the clock shows, when the clipboard is first looked at.
    pub manager: ManagerState,
    pub seen_at: i64,
    /// What the clipboard shows then.
    pub shown: Option<Seq<char>>,
    pub shows_image: bool,
    pub shows_files: bool,
    pub shown_files: Option<Seq<Seq<char>>>,
    pub database: bool,
    pub detector: bool,
    /// Only plain text is wanted.
    pub copy_plain: bool,
    /// The formats that the clipboard offers.
    pub has_image: bool,
    pub has_files: bool,
    pub files: Option<Seq<Seq<char>>>,
    pub has_html: bool,
    pub has_rtf: bool,
    /// The image on the clipboard, and the one in its only file, once they are saved.
    pub screenshot: Option<SavedImage<Seq<char>>>,
    pub file_image: Option<SavedImage<Seq<char>>>,
    /// The size of the first file.
    pub size: Option<u64>,
    /// The page, the rich text and the plain text, as far as they can be read.
    pub html: Option<Seq<char>>,
    pub rtf: Option<Seq<char>>,
    pub text: Option<Seq<char>>,
    pub detection: Option<Detection<Seq<char>>>,
    /// The identifier of the record, and what the clock shows when it is made.
    pub id: Seq<char>,
    pub made_at: i64,
    pub result: Option<InsertResult<Seq<char>>>,
}

/// The answer to the action that a phase waits for.
pub open spec fn answer(answers: ChangeAnswers, phase: PhaseView) -> Answer {
    let event = match phase {
        ChangePhase::Snapshot => EventView::Snapshot {
            text: answers.shown,
            has_image: answers.shows_image,
            has_files: answers.shows_files,
            files: answers.shown_files,
        },
        ChangePhase::Services => ChangeEvent::Services {
            database: answers.database,
            detector: answers.detector,
        },
        ChangePhase::Formats { .. } => ChangeEvent::Formats {
            copy_plain: answers.copy_plain,
            has_image: answers.has_image,
            has_files: answers.has_files,
            files: answers.files,
            has_html: answers.has_html,
            has_rtf: answers.has_rtf,
        },
        ChangePhase::Screenshot { .. } => ChangeEvent::ImageSaved { image: answers.screenshot },
        ChangePhase::FileImage { .. } => ChangeEvent::ImageSaved { image: answers.file_image },
        ChangePhase::FirstSize { .. } => ChangeEvent::Measured { size: answers.size },
        ChangePhase::RichText => ChangeEvent::RichRead { value: answers.rtf, text: answers.text },
        ChangePhase::Html => ChangeEvent::RichRead { value: answers.html, text: answers.text },
        ChangePhase::PlainText { .. } => ChangeEvent::TextRead { text: answers.text },
        ChangePhase::Detect { .. } => ChangeEvent::Detected { detection: answers.detection },
        ChangePhase::NewId { .. } => ChangeEvent::Identified { id: answers.id },
        ChangePhase::Insert { .. } => ChangeEvent::Inserted { result: answers.result },
        _ => ChangeEvent::Performed,
    };
    let now = if phase is Snapshot {
        answers.seen_at
    } else {
        answers.made_at
    };
    Answer { manager: answers.manager, event, now }
}

/// What the history keeps of the only file on the clipboard: the image in it, where it is one.
pub open spec fn kept_of_file(
    answers: ChangeAnswers,
    files: Seq<Seq<char>>,
) -> Draft<Seq<char>> {
    match answers.file_image {
        Some(image) => image_draft(image),
        None => files_draft(files, files_count(files, answers.size)),
    }
}

/// What the history keeps of what the clipboard offers, if it keeps anything: the image, or else
/// the files, or else the text, in the richest format that is wanted.
pub open spec fn kept_of_formats(answers: ChangeAnswers) -> Option<Draft<Seq<char>>> {
    let files = list_or_empty(answers.files);
    let only_file = answers.has_files && files.len() == 1;
    if answers.has_image {
        match answers.screenshot {
            Some(image) => Some(image_draft(image)),
            None => if only_file {
                Some(kept_of_file(answers, files))
            } else {
                None
            },
        }
    } else if only_file {
        Some(kept_of_file(answers, files))
    } else if answers.has_files {
        let size = if files.len() == 0 {
            None
        } else {
            answers.size
        };
        Some(files_draft(files, files_count(files, size)))
    } else if answers.has_html && !answers.copy_plain {
        match answers.html {
            Some(page) => Some(rich_draft("html"@, page, answers.text)),
            None => None,
        }
    } else if answers.has_rtf && !answers.copy_plain {
        match answers.rtf {
            Some(rtf) => Some(rich_draft("rtf"@, rtf, answers.text)),
            None => None,
        }
    } else {
        match answers.text {
            Some(text) => if text::blank(text) {
                None
            } else if answers.detector {
                Some(refined(text_draft(text), answers.detection))
            } else {
                Some(text_draft(text))
            },
            None => None,
        }
    }
}

/// What the history keeps of a change, if it keeps anything: nothing of one that this program
/// caused, and nothing without a database.
pub open spec fn kept(answers: ChangeAnswers) -> Option<Draft<Seq<char>>> {
    let own = manager::own_write(
        answers.manager,
        answers.seen_at as u64,
        text::text_or_empty(answers.shown),
        answers.shows_image,
        answers.shows_files,
        list_or_empty(answers.shown_files),
    );
    if own || !answers.database {
        None
    } else {
        kept_of_formats(answers)
    }
}

/// The phase that these answers lead to, up to the first that adds a record or ends.
pub open spec fn settled(answers: ChangeAnswers, phase: PhaseView) -> PhaseView
    decreases remaining(phase),
{
    if phase is Insert || phase is Done {
        phase
    } else {
        let a = answer(answers, phase);
        proof {
            law_change_comes_to_an_end(phase, a.manager, a.event, a.now);
        }
        settled(answers, next(phase, a.manager, a.event, a.now))
    }
}

/// The answers to everything that a change asks for decide what is added to the history: the record
/// of what is kept of the change, or nothing.
pub proof fn law_change_adds_what_is_kept(answers: ChangeAnswers)
    ensures
        settled(answers, ChangePhase::Snapshot) == match kept(answers) {
            Some(draft) => PhaseView::Insert {
                item: record_of(draft, answers.id, answers.made_at),
            },
            None => PhaseView::Done,
        },
{
    reveal_with_fuel(settled, 9);
}

/// A change that this program caused is not looked at any further.
pub proof fn law_own_write_is_ignored(
    manager: ManagerState,
    text: Option<Seq<char>>,
    has_image: bool,
    has_files: bool,
    files: Option<Seq<Seq<char>>>,
    now: i64,
)
    requires
        manager::own_write(
            manager,
            now as u64,
            text::text_or_empty(text),
            has_image,
            has_files,
            list_or_empty(files),
        ),
    ensures
        next(
            ChangePhase::Snapshot,
            manager,
            ChangeEvent::Snapshot { text, has_image, has_files, files },
            now,
        ) == PhaseView::Done,
{
}

/// A text that this program wrote does not come back into the history: the change that shows it
/// within the time window is not looked at any further.
pub proof fn law_written_text_is_not_recorded(
    before: ManagerState,
    after: ManagerState,
    prefix: Seq<char>,
    value: Seq<char>,
    has_image: bool,
    has_files: bool,
    files: Option<Seq<Seq<char>>>,
    now: i64,
)
    requires
        manager::text_prefix(prefix),
        manager::recorded(before, after, prefix + value),
        value.len() > 0,
        0 <= now,
        now - after.write_time <= manager::OWN_WRITE_WINDOW_MS,
    ensures
        next(
            ChangePhase::Snapshot,
            after,
            ChangeEvent::Snapshot { text: Some(value), has_image, has_files, files },
            now,
        ) == PhaseView::Done,
{
    manager::law_text_write_is_recognised(
        before,
        after,
        prefix,
        value,
        now as u64,
        has_image,
        has_files,
        list_or_empty(files),
    );
}

/// A plain text of nothing but white space is never added to the history.
pub proof fn law_blank_text_is_ignored(
    detector: bool,
    manager: ManagerState,
    text: Seq<char>,
    now: i64,
)
    requires
        text::blank(text),
    ensures
        next(
            ChangePhase::PlainText { detector },
            manager,
            ChangeEvent::TextRead { text: Some(text) },
            now,
        ) == PhaseView::Done,
{
}

/// The text of a plain text record is kept as it was read, and is what the record is searched by,
/// unless it is a colour with a normal form.
pub proof fn law_detection_keeps_the_text(text: Seq<char>, detection: Option<Detection<Seq<char>>>)
    ensures
        refined(text_draft(text), detection).value == Some(text),
        refined(text_draft(text), detection).count == Some(text_count(text)),
        refined(text_draft(text), detection).search == Some(text) || refined(
            text_draft(text),
            detection,
        ).subtype == Some("color"@),
{
}

/// The sound and the notice follow a record that the history took in, in this order, and nothing
/// follows one that it did not.
pub proof fn law_sound_and_notice_follow_the_record(
    item: InsertItem<Seq<char>>,
    manager: ManagerState,
    result: Option<InsertResult<Seq<char>>>,
    now: i64,
)
    ensures
        ({
            let after = next(
                ChangePhase::Insert { item },
                manager,
                ChangeEvent::Inserted { result },
                now,
            );
            match result {
                None => after == PhaseView::Done,
                Some(r) => {
                    let told = next(after, manager, ChangeEvent::Performed, now);
                    &&& action_of(after) == ChangeAction::<Seq<char>>::PlayAudio
                    &&& action_of(told) == (ChangeAction::Emit {
                        event: "plugin:eco-clipboard://database_updated"@,
                        duplicate_id: if r.is_update {
                            r.insert_id
                        } else {
                            None
                        },
                    })
                    &&& next(told, manager, ChangeEvent::Performed, now) == PhaseView::Done
                },
            }
        }),
{
}

/// With plain text wanted, neither a rich text nor a page is read, and whether the clipboard offers
/// them makes no difference.
pub proof fn law_copy_plain_reads_no_format(
    detector: bool,
    has_image: bool,
    has_files: bool,
    files: Seq<Seq<char>>,
    has_html: bool,
    has_rtf: bool,
    other_html: bool,
    other_rtf: bool,
)
    ensures
        chosen_format(detector, true, has_image, has_files, files, has_html, has_rtf)
            == chosen_format(detector, true, has_image, has_files, files, other_html, other_rtf),
        !(chosen_format(detector, true, has_image, has_files, files, has_html, has_rtf) is Html),
        !(chosen_format(detector, true, has_image, has_files, files, has_html, has_rtf)
            is RichText),
{
}

} // verus!
