//! What the clipboard is asked to hold.

use vstd::prelude::*;
use crate::text;

verus! {

/// One representation of a content of the clipboard.
#[derive(Debug, PartialEq, Eq)]
pub enum ClipboardContent<T = String> {
    Text(T),
    Rtf(T),
    Html(T),
}

impl View for ClipboardContent {
    type V = ClipboardContent<Seq<char>>;

    open spec fn view(&self) -> ClipboardContent<Seq<char>> {
        match *self {
            ClipboardContent::Text(s) => ClipboardContent::Text(s@),
            ClipboardContent::Rtf(s) => ClipboardContent::Rtf(s@),
            ClipboardContent::Html(s) => ClipboardContent::Html(s@),
        }
    }
}

/// A write to the clipboard that is still to be carried out.
#[derive(Debug, PartialEq, Eq)]
pub enum ClipboardRequest {
    /// Replace all that the clipboard holds by these representations, the preferred one first.
    SetContents(Vec<ClipboardContent>),
    /// Put a text on the clipboard.
    SetText(String),
    /// Put a list of files on the clipboard.
    SetFiles(Vec<String>),
    /// Put the image in the file with this path on the clipboard.
    SetImage(String),
}

/// A `ClipboardRequest` with its texts as sequences of characters.
#[verifier::ext_equal]
pub enum RequestView {
    SetContents(Seq<ClipboardContent<Seq<char>>>),
    SetText(Seq<char>),
    SetFiles(Seq<Seq<char>>),
    SetImage(Seq<char>),
}

impl View for ClipboardRequest {
    type V = RequestView;

    open spec fn view(&self) -> RequestView {
        match *self {
            ClipboardRequest::SetContents(contents) => RequestView::SetContents(
                contents@.map_values(|c: ClipboardContent| c@),
            ),
            ClipboardRequest::SetText(s) => RequestView::SetText(s@),
            ClipboardRequest::SetFiles(files) => RequestView::SetFiles(text::texts(files@)),
            ClipboardRequest::SetImage(path) => RequestView::SetImage(path@),
        }
    }
}

/// The view of a request tells the four kinds apart and holds each text of the request.
pub proof fn law_request_views(
    contents: Vec<ClipboardContent>,
    text: String,
    files: Vec<String>,
    path: String,
)
    ensures
        ClipboardRequest::SetContents(contents)@ matches RequestView::SetContents(shown)
            && shown.len() == contents@.len() && forall|i: int|
            0 <= i < shown.len() ==> #[trigger] shown[i] == match contents@[i] {
                ClipboardContent::Text(s) => ClipboardContent::Text(s@),
                ClipboardContent::Rtf(s) => ClipboardContent::Rtf(s@),
                ClipboardContent::Html(s) => ClipboardContent::Html(s@),
            },
        ClipboardRequest::SetText(text)@ == RequestView::SetText(text@),
        ClipboardRequest::SetFiles(files)@ matches RequestView::SetFiles(shown) && shown.len()
            == files@.len() && forall|i: int|
            0 <= i < shown.len() ==> #[trigger] shown[i] == files@[i]@,
        ClipboardRequest::SetImage(path)@ == RequestView::SetImage(path@),
{
}

} // verus!
