//! The records of the clipboard history.

use vstd::prelude::*;
use crate::text;

verus! {

/// A record that is to be added to the history.
#[derive(Debug, PartialEq, Eq)]
pub struct InsertItem<T = String> {
    pub id: T,
    pub item_type: Option<T>,
    pub group: Option<T>,
    pub value: Option<T>,
    pub search: Option<T>,
    pub count: Option<i32>,
    pub width: Option<i32>,
    pub height: Option<i32>,
    pub favorite: i32,
    pub time: i64,
    pub note: Option<T>,
    pub subtype: Option<T>,
    pub deleted: Option<i32>,
    pub sync_status: Option<T>,
    pub source_app_name: Option<T>,
    pub source_app_icon: Option<T>,
    pub position: Option<i32>,
}

impl View for InsertItem {
    type V = InsertItem<Seq<char>>;

    open spec fn view(&self) -> InsertItem<Seq<char>> {
        InsertItem {
            id: self.id@,
            item_type: text::text_of(self.item_type),
            group: text::text_of(self.group),
            value: text::text_of(self.value),
            search: text::text_of(self.search),
            count: self.count,
            width: self.width,
            height: self.height,
            favorite: self.favorite,
            time: self.time,
            note: text::text_of(self.note),
            subtype: text::text_of(self.subtype),
            deleted: self.deleted,
            sync_status: text::text_of(self.sync_status),
            source_app_name: text::text_of(self.source_app_name),
            source_app_icon: text::text_of(self.source_app_icon),
            position: self.position,
        }
    }
}

/// What the clipboard showed, as far as the history keeps it.
#[derive(Debug, PartialEq, Eq)]
pub struct Draft<T = String> {
    pub item_type: T,
    pub group: T,
    pub value: Option<T>,
    pub search: Option<T>,
    /// The characters of a text, or the bytes of the file of an image or of the first of the files.
    pub count: Option<i32>,
    pub subtype: Option<T>,
    pub width: Option<i32>,
    pub height: Option<i32>,
}

impl View for Draft {
    type V = Draft<Seq<char>>;

    open spec fn view(&self) -> Draft<Seq<char>> {
        Draft {
            item_type: self.item_type@,
            group: self.group@,
            value: text::text_of(self.value),
            search: text::text_of(self.search),
            count: self.count,
            subtype: text::text_of(self.subtype),
            width: self.width,
            height: self.height,
        }
    }
}

/// An image that was put into a file for the history.
#[derive(Debug, PartialEq, Eq)]
pub struct SavedImage<T = String> {
    pub path: T,
    pub file_size: i32,
    pub width: u32,
    pub height: u32,
}

impl View for SavedImage {
    type V = SavedImage<Seq<char>>;

    open spec fn view(&self) -> SavedImage<Seq<char>> {
        SavedImage {
            path: self.path@,
            file_size: self.file_size,
            width: self.width,
            height: self.height,
        }
    }
}

/// What the detector found in a text.
#[derive(Debug, PartialEq, Eq)]
pub struct Detection<T = String> {
    pub subtype: Option<T>,
    pub is_code: bool,
    pub is_markdown: bool,
    pub code_language: Option<T>,
    pub color_normalized: Option<T>,
}

impl View for Detection {
    type V = Detection<Seq<char>>;

    open spec fn view(&self) -> Detection<Seq<char>> {
        Detection {
            subtype: text::text_of(self.subtype),
            is_code: self.is_code,
            is_markdown: self.is_markdown,
            code_language: text::text_of(self.code_language),
            color_normalized: text::text_of(self.color_normalized),
        }
    }
}

/// What the detector is to look for.
#[derive(Clone, Copy, Debug, PartialEq, Eq, Structural)]
pub struct DetectionOptions {
    pub detect_url: bool,
    pub detect_email: bool,
    pub detect_path: bool,
    pub detect_color: bool,
    pub detect_code: bool,
    pub detect_markdown: bool,
    pub code_min_length: usize,
}

/// How the history took a record in.
#[derive(Debug, PartialEq, Eq)]
pub struct InsertResult<T = String> {
    /// The record took the place of an equal one.
    pub is_update: bool,
    pub insert_id: Option<T>,
}

impl View for InsertResult {
    type V = InsertResult<Seq<char>>;

    open spec fn view(&self) -> InsertResult<Seq<char>> {
        InsertResult { is_update: self.is_update, insert_id: text::text_of(self.insert_id) }
    }
}

/// A record of the history, as far as a paste reads it.
#[derive(Debug, PartialEq, Eq)]
pub struct HistoryItem<T = String> {
    pub id: T,
    pub item_type: Option<T>,
    pub subtype: Option<T>,
    pub value: Option<T>,
    pub search: Option<T>,
}

impl View for HistoryItem {
    type V = HistoryItem<Seq<char>>;

    open spec fn view(&self) -> HistoryItem<Seq<char>> {
        HistoryItem {
            id: self.id@,
            item_type: text::text_of(self.item_type),
            subtype: text::text_of(self.subtype),
            value: text::text_of(self.value),
            search: text::text_of(self.search),
        }
    }
}

/// A copy of a text that may be missing.
pub(crate) fn copy_text(t: &Option<String>) -> (r: Option<String>)
    ensures
        text::text_of(r) == text::text_of(*t),
{
    match t {
        Some(s) => Some(s.clone()),
        None => None,
    }
}

impl InsertItem {
    /// A copy of the record.
    pub(crate) fn copy(&self) -> (r: Self)
        ensures
            r@ == self@,
    {
        InsertItem {
            id: self.id.clone(),
            item_type: copy_text(&self.item_type),
            group: copy_text(&self.group),
            value: copy_text(&self.value),
            search: copy_text(&self.search),
            count: self.count,
            width: self.width,
            height: self.height,
            favorite: self.favorite,
            time: self.time,
            note: copy_text(&self.note),
            subtype: copy_text(&self.subtype),
            deleted: self.deleted,
            sync_status: copy_text(&self.sync_status),
            source_app_name: copy_text(&self.source_app_name),
            source_app_icon: copy_text(&self.source_app_icon),
            position: self.position,
        }
    }
}

impl HistoryItem {
    /// A copy of the record.
    pub(crate) fn copy(&self) -> (r: Self)
        ensures
            r@ == self@,
    {
        HistoryItem {
            id: self.id.clone(),
            item_type: copy_text(&self.item_type),
            subtype: copy_text(&self.subtype),
            value: copy_text(&self.value),
            search: copy_text(&self.search),
        }
    }
}

/// The view of a new record holds each of its fields.
pub proof fn law_insert_item_view(item: InsertItem)
    ensures
        item@.id == item.id@,
        item@.item_type == text::text_of(item.item_type),
        item@.group == text::text_of(item.group),
        item@.value == text::text_of(item.value),
        item@.search == text::text_of(item.search),
        item@.count == item.count,
        item@.width == item.width && item@.height == item.height,
        item@.favorite == item.favorite && item@.time == item.time,
        item@.note == text::text_of(item.note),
        item@.subtype == text::text_of(item.subtype),
        item@.deleted == item.deleted,
        item@.sync_status == text::text_of(item.sync_status),
        item@.source_app_name == text::text_of(item.source_app_name),
        item@.source_app_icon == text::text_of(item.source_app_icon),
        item@.position == item.position,
{
}

/// The view of a draft holds each of its fields.
pub proof fn law_draft_view(draft: Draft)
    ensures
        draft@.item_type == draft.item_type@ && draft@.group == draft.group@,
        draft@.value == text::text_of(draft.value),
        draft@.search == text::text_of(draft.search),
        draft@.count == draft.count,
        draft@.subtype == text::text_of(draft.subtype),
        draft@.width == draft.width && draft@.height == draft.height,
{
}

/// The views of what other parts of the program found hold each of their fields.
pub proof fn law_finding_views(image: SavedImage, detection: Detection, result: InsertResult)
    ensures
        image@.path == image.path@ && image@.file_size == image.file_size,
        image@.width == image.width && image@.height == image.height,
        detection@.subtype == text::text_of(detection.subtype),
        detection@.is_code == detection.is_code,
        detection@.is_markdown == detection.is_markdown,
        detection@.code_language == text::text_of(detection.code_language),
        detection@.color_normalized == text::text_of(detection.color_normalized),
        result@.is_update == result.is_update,
        result@.insert_id == text::text_of(result.insert_id),
{
}

/// The view of a record of the history holds each of its fields.
pub proof fn law_history_item_view(item: HistoryItem)
    ensures
        item@.id == item.id@,
        item@.item_type == text::text_of(item.item_type),
        item@.subtype == text::text_of(item.subtype),
        item@.value == text::text_of(item.value),
        item@.search == text::text_of(item.search),
{
}

} // verus!
