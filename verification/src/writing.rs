//! Which representation of a history item goes to the clipboard.

use vstd::prelude::*;
use crate::delays;
use crate::delays::is_formatted_like;
use crate::manager;
use crate::manager::{ClipboardManager, Platform};
use crate::request::{ClipboardContent, ClipboardRequest, RequestView};
use crate::text::same;

verus! {

/// A write to the clipboard, by its kind.
#[verifier::ext_equal]
pub enum ClipboardWrite {
    Nothing,
    Image { path: Seq<char> },
    Rtf { text: Seq<char>, rtf: Seq<char> },
    Html { text: Seq<char>, html: Seq<char> },
    Text { text: Seq<char> },
}

/// The plain text of an item: the searchable text for a formatted item and for a plain paste,
/// where there is one, and otherwise the value.
pub open spec fn plain_text(
    item_type: Seq<char>,
    value: Seq<char>,
    search: Seq<char>,
    plain: bool,
) -> Seq<char> {
    if (delays::formatted_like(item_type) || plain) && search.len() > 0 {
        search
    } else {
        value
    }
}

/// How an item is written to the clipboard.
pub open spec fn planned_write(
    item_type: Seq<char>,
    subtype: Option<Seq<char>>,
    value: Seq<char>,
    search: Seq<char>,
    plain: bool,
) -> ClipboardWrite {
    let text = plain_text(item_type, value, search, plain);
    if item_type == "image"@ {
        if value.len() == 0 {
            ClipboardWrite::Nothing
        } else {
            ClipboardWrite::Image { path: value }
        }
    } else if item_type == "rtf"@ || (item_type == "formatted"@ && subtype == Some("rtf"@)) {
        ClipboardWrite::Rtf { text, rtf: value }
    } else if (item_type == "html"@ || item_type == "formatted"@) && value.len() > 0 {
        ClipboardWrite::Html { text, html: value }
    } else {
        ClipboardWrite::Text { text }
    }
}

/// The fingerprint under which a write is recorded.
pub open spec fn write_fingerprint(write: ClipboardWrite) -> Option<Seq<char>> {
    match write {
        ClipboardWrite::Nothing => None,
        ClipboardWrite::Image { path } => Some("image:"@ + path),
        ClipboardWrite::Rtf { text, .. } => Some("rtf:"@ + text),
        ClipboardWrite::Html { text, .. } => Some("html:"@ + text),
        ClipboardWrite::Text { text } => Some("text:"@ + text),
    }
}

/// What the clipboard is asked for by a write.
pub open spec fn write_request(platform: Platform, write: ClipboardWrite) -> Option<RequestView> {
    match write {
        ClipboardWrite::Nothing => None,
        ClipboardWrite::Image { path } => Some(RequestView::SetImage(path)),
        ClipboardWrite::Rtf { text, rtf } => Some(
            RequestView::SetContents(manager::rtf_contents(platform, text, rtf)),
        ),
        ClipboardWrite::Html { text, html } => Some(
            RequestView::SetContents(
                seq![ClipboardContent::Html(html), ClipboardContent::Text(text)],
            ),
        ),
        ClipboardWrite::Text { text } => Some(
            RequestView::SetContents(seq![ClipboardContent::Text(text)]),
        ),
    }
}

/// What a request that may be missing asks for.
pub open spec fn request_of(request: Option<ClipboardRequest>) -> Option<RequestView> {
    match request {
        Some(r) => Some(r@),
        None => None,
    }
}

/// Records the write of an item and asks for it. Nothing is asked for, and nothing recorded, for
/// an image without a path.
pub fn write_to_clipboard(
    manager: &mut ClipboardManager,
    item_type: &str,
    subtype: Option<&str>,
    value: &str,
    search: &str,
    plain: bool,
) -> (r: Option<ClipboardRequest>)
    ensures
        ({
            let sub = match subtype {
                Some(s) => Some(s@),
                None => None,
            };
            let write = planned_write(item_type@, sub, value@, search@, plain);
            &&& request_of(r) == write_request(old(manager)@.platform, write)
            &&& match write_fingerprint(write) {
                Some(fingerprint) => manager::recorded(
                    old(manager)@,
                    final(manager)@,
                    fingerprint,
                ),
                None => final(manager)@ == old(manager)@,
            }
        }),
        !plain && item_type@ != "image"@ && item_type@ != "formatted"@ && item_type@ != "html"@
            && item_type@ != "rtf"@ ==> (r matches Some(ClipboardRequest::SetContents(contents))
            && contents@.len() == 1 && (contents@[0] matches ClipboardContent::Text(text) && text@
            == value@)),
        item_type@ == "image"@ && value@.len() > 0 ==> (r matches Some(
            ClipboardRequest::SetImage(path),
        ) && path@ == value@),
        item_type@ == "image"@ && value@.len() == 0 ==> r is None,
{
    let text = if (is_formatted_like(item_type) || plain) && !search.is_empty() {
        search
    } else {
        value
    };
    if same(item_type, "image") {
        if value.is_empty() {
            return None;
        }
        return Some(manager.write_image(value.to_string()));
    }
    let formatted = same(item_type, "formatted");
    let rich = match subtype {
        Some(s) => same(s, "rtf"),
        None => false,
    };
    if same(item_type, "rtf") || (formatted && rich) {
        Some(manager.write_rtf(text.to_string(), value.to_string()))
    } else if (same(item_type, "html") || formatted) && !value.is_empty() {
        Some(manager.write_html(text.to_string(), value.to_string()))
    } else {
        let request = manager.write_text(text.to_string());
        proof {
            let contents = request->SetContents_0@;
            let shown = contents.map_values(|c: ClipboardContent| c@);
            assert(shown.len() == contents.len());
            assert(shown[0] == contents[0]@);
        }
        Some(request)
    }
}

/// A plain paste writes the searchable text, and only as plain text.
pub proof fn law_plain_write_is_plain_text(search: Seq<char>)
    ensures
        planned_write("text"@, None, search, search, true) == (ClipboardWrite::Text {
            text: search,
        }),
{
    reveal_strlit("text");
    reveal_strlit("image");
    reveal_strlit("rtf");
    reveal_strlit("html");
    reveal_strlit("formatted");
    assert("text"@.len() != "image"@.len());
    assert("text"@.len() != "rtf"@.len());
    assert("text"@[0] != "html"@[0]);
    assert("text"@.len() != "formatted"@.len());
}

/// The plain text that goes with a page or a rich text is the searchable text of the item
/// wherever there is one, whether or not a plain paste was asked for.
pub proof fn law_formatted_write_falls_back_on_search(
    item_type: Seq<char>,
    subtype: Option<Seq<char>>,
    value: Seq<char>,
    search: Seq<char>,
    plain: bool,
)
    requires
        delays::formatted_like(item_type),
        search.len() > 0,
    ensures
        match planned_write(item_type, subtype, value, search, plain) {
            ClipboardWrite::Rtf { text, rtf } => text == search && rtf == value,
            ClipboardWrite::Html { text, html } => text == search && html == value,
            ClipboardWrite::Text { text } => text == search && value.len() == 0,
            _ => false,
        },
{
    reveal_strlit("image");
    reveal_strlit("rtf");
    reveal_strlit("html");
    reveal_strlit("formatted");
    assert("image"@.len() != "rtf"@.len());
    assert("image"@.len() != "html"@.len());
    assert("image"@.len() != "formatted"@.len());
}

/// Nothing is written only for an image without a path.
pub proof fn law_only_pathless_images_write_nothing(
    item_type: Seq<char>,
    subtype: Option<Seq<char>>,
    value: Seq<char>,
    search: Seq<char>,
    plain: bool,
)
    ensures
        planned_write(item_type, subtype, value, search, plain) is Nothing <==> item_type
            == "image"@ && value.len() == 0,
{
}

/// The plain text of an item of a formatted type, or of any item that is pasted plainly: the
/// searchable text, or the value where there is none.
pub open spec fn shown_text(value: Seq<char>, search: Seq<char>) -> Seq<char> {
    if search.len() == 0 {
        value
    } else {
        search
    }
}

/// An item that is neither an image nor formatted is asked for as plain text only, whatever its
/// subtype: its value as it is, and what it is searched by in a plain paste.
pub proof fn law_text_item_is_asked_for_as_text(
    platform: Platform,
    item_type: Seq<char>,
    subtype: Option<Seq<char>>,
    value: Seq<char>,
    search: Seq<char>,
)
    requires
        item_type != "image"@,
        item_type != "formatted"@,
        item_type != "html"@,
        item_type != "rtf"@,
    ensures
        write_request(platform, planned_write(item_type, subtype, value, search, false)) == Some(
            RequestView::SetContents(seq![ClipboardContent::Text(value)]),
        ),
        search.len() > 0 ==> write_request(
            platform,
            planned_write(item_type, subtype, value, search, true),
        ) == Some(RequestView::SetContents(seq![ClipboardContent::Text(search)])),
        search.len() == 0 ==> write_request(
            platform,
            planned_write(item_type, subtype, value, search, true),
        ) == Some(RequestView::SetContents(seq![ClipboardContent::Text(value)])),
        write_fingerprint(planned_write(item_type, subtype, value, search, false)) == Some(
            "text:"@ + value,
        ),
        search.len() > 0 ==> write_fingerprint(
            planned_write(item_type, subtype, value, search, true),
        ) == Some("text:"@ + search),
        search.len() == 0 ==> write_fingerprint(
            planned_write(item_type, subtype, value, search, true),
        ) == Some("text:"@ + value),
{
}

/// The names of the types that are not written as text differ.
pub(crate) proof fn lemma_type_names()
    ensures
        "image"@ != "formatted"@ && "image"@ != "html"@ && "image"@ != "rtf"@,
        "formatted"@ != "html"@ && "formatted"@ != "rtf"@ && "html"@ != "rtf"@,
{
    reveal_strlit("image");
    reveal_strlit("formatted");
    reveal_strlit("html");
    reveal_strlit("rtf");
    assert("image"@.len() == 5 && "formatted"@.len() == 9);
    assert("html"@.len() == 4 && "rtf"@.len() == 3);
}

/// An image is asked for by its path, whatever else the item holds, and not at all without one.
pub proof fn law_image_item_is_asked_for_by_path(
    platform: Platform,
    subtype: Option<Seq<char>>,
    value: Seq<char>,
    search: Seq<char>,
    plain: bool,
)
    ensures
        value.len() > 0 ==> write_request(
            platform,
            planned_write("image"@, subtype, value, search, plain),
        ) == Some(RequestView::SetImage(value)),
        value.len() > 0 ==> write_fingerprint(
            planned_write("image"@, subtype, value, search, plain),
        ) == Some("image:"@ + value),
        value.len() == 0 ==> write_request(
            platform,
            planned_write("image"@, subtype, value, search, plain),
        ) is None,
        value.len() == 0 ==> write_fingerprint(
            planned_write("image"@, subtype, value, search, plain),
        ) is None,
{
}

/// A rich text is asked for as one, its plain text behind it except on macOS, and recorded by that
/// plain text.
pub proof fn law_rich_item_is_asked_for_as_rich_text(
    item_type: Seq<char>,
    subtype: Option<Seq<char>>,
    value: Seq<char>,
    search: Seq<char>,
    plain: bool,
)
    requires
        item_type == "rtf"@ || (item_type == "formatted"@ && subtype == Some("rtf"@)),
    ensures
        write_request(
            Platform::Other,
            planned_write(item_type, subtype, value, search, plain),
        ) == Some(
            RequestView::SetContents(
                seq![
                    ClipboardContent::Rtf(value),
                    ClipboardContent::Text(shown_text(value, search)),
                ],
            ),
        ),
        write_request(
            Platform::MacOs,
            planned_write(item_type, subtype, value, search, plain),
        ) == Some(RequestView::SetContents(seq![ClipboardContent::Rtf(value)])),
        write_fingerprint(planned_write(item_type, subtype, value, search, plain)) == Some(
            "rtf:"@ + shown_text(value, search),
        ),
{
    lemma_type_names();
}

/// A page, and a formatted item of any other subtype than rich text, is asked for as a page with its
/// plain text behind it, and as that plain text only where it has no value.
pub proof fn law_page_item_is_asked_for_as_page(
    platform: Platform,
    item_type: Seq<char>,
    subtype: Option<Seq<char>>,
    value: Seq<char>,
    search: Seq<char>,
    plain: bool,
)
    requires
        item_type == "html"@ || (item_type == "formatted"@ && subtype != Some("rtf"@)),
    ensures
        value.len() > 0 ==> write_request(
            platform,
            planned_write(item_type, subtype, value, search, plain),
        ) == Some(
            RequestView::SetContents(
                seq![
                    ClipboardContent::Html(value),
                    ClipboardContent::Text(shown_text(value, search)),
                ],
            ),
        ),
        value.len() > 0 ==> write_fingerprint(
            planned_write(item_type, subtype, value, search, plain),
        ) == Some("html:"@ + shown_text(value, search)),
        value.len() == 0 ==> write_request(
            platform,
            planned_write(item_type, subtype, value, search, plain),
        ) == Some(RequestView::SetContents(seq![ClipboardContent::Text(search)])),
        value.len() == 0 ==> write_fingerprint(
            planned_write(item_type, subtype, value, search, plain),
        ) == Some("text:"@ + search),
{
    lemma_type_names();
    if value.len() == 0 && search.len() == 0 {
        assert(value =~= search);
    }
}

/// What a request that may be missing asks for is what the request asks for.
pub proof fn law_request_of(request: ClipboardRequest)
    ensures
        request_of(Some(request)) == Some(request@),
        request_of(None::<ClipboardRequest>) is None,
{
}

} // verus!
