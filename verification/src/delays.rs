//! How long to wait around a paste, by the type and the size of what is pasted.

use vstd::prelude::*;
use crate::text;
use crate::text::{len_of, same};

verus! {

/// Item types that are pasted as plain text.
pub open spec fn text_like(item_type: Seq<char>) -> bool {
    ||| item_type == "text"@ || item_type == "code"@ || item_type == "color"@
    ||| item_type == "markdown"@ || item_type == "link"@ || item_type == "path"@
}

/// Item types that are pasted as formatted text.
pub open spec fn formatted_like(item_type: Seq<char>) -> bool {
    item_type == "formatted"@ || item_type == "html"@ || item_type == "rtf"@
}

/// Item types whose value is the path of a file.
pub open spec fn file_like(item_type: Seq<char>) -> bool {
    item_type == "image"@ || item_type == "files"@
}

/// One of three numbers, by where `size` stands between two bounds.
pub open spec fn graded(size: int, first: int, second: int, a: u64, b: u64, c: u64) -> u64 {
    if size < first {
        a
    } else if size < second {
        b
    } else {
        c
    }
}

/// The milliseconds to wait after a write to the clipboard. An image of up to five million bytes
/// is not a large one yet.
pub open spec fn write_delay(item_type: Seq<char>, size: int) -> u64 {
    if text_like(item_type) {
        graded(size, 100, 1000, 15, 25, 40)
    } else if item_type == "image"@ {
        graded(size, 1_000_000, 5_000_001, 40, 75, 150)
    } else if formatted_like(item_type) {
        graded(size, 1000, 5000, 25, 35, 50)
    } else if item_type == "files"@ {
        40
    } else {
        30
    }
}

/// The milliseconds to wait after a paste.
pub open spec fn paste_delay(item_type: Seq<char>, size: int) -> u64 {
    if text_like(item_type) {
        graded(size, 100, 1000, 20, 25, 30)
    } else if item_type == "image"@ {
        graded(size, 1_000_000, 5_000_000, 40, 50, 60)
    } else if formatted_like(item_type) || item_type == "files"@ {
        40
    } else {
        30
    }
}

/// The size of a content is that of the file that its value names.
pub open spec fn in_file(item_type: Seq<char>, value: Seq<char>) -> bool {
    file_like(item_type) && value.len() > 0
}

/// The size of a content in bytes, given the size of the file that its value names, if there is
/// such a file: that size for an image or files, cut down to what the machine can address, and
/// otherwise the length of the value.
pub open spec fn content_size(
    item_type: Seq<char>,
    value: Seq<char>,
    file_size: Option<u64>,
) -> int {
    match file_size {
        Some(n) if in_file(item_type, value) => (n as usize) as int,
        _ => text::byte_len(value) as int,
    }
}

fn is_text_like(item_type: &str) -> (r: bool)
    ensures
        r == text_like(item_type@),
{
    same(item_type, "text") || same(item_type, "code") || same(item_type, "color") || same(
        item_type,
        "markdown",
    ) || same(item_type, "link") || same(item_type, "path")
}

pub(crate) fn is_formatted_like(item_type: &str) -> (r: bool)
    ensures
        r == formatted_like(item_type@),
{
    same(item_type, "formatted") || same(item_type, "html") || same(item_type, "rtf")
}

fn pick(size: usize, first: usize, second: usize, a: u64, b: u64, c: u64) -> (r: u64)
    ensures
        r == graded(size as int, first as int, second as int, a, b, c),
{
    if size < first {
        a
    } else if size < second {
        b
    } else {
        c
    }
}

/// Whether the size of a content is that of the file that its value names.
pub fn wants_file_size(item_type: &str, value: &str) -> (r: bool)
    ensures
        r == in_file(item_type@, value@),
{
    (same(item_type, "image") || same(item_type, "files")) && !value.is_empty()
}

/// The size of a content in bytes, given the size of the file that its value names, if there is
/// such a file.
pub fn get_content_size(item_type: &str, value: &str, file_size: Option<u64>) -> (r: usize)
    ensures
        r == content_size(item_type@, value@, file_size),
{
    match file_size {
        Some(n) => {
            if wants_file_size(item_type, value) {
                #[verifier::truncate]
                (n as usize)
            } else {
                len_of(value)
            }
        },
        None => len_of(value),
    }
}

/// The milliseconds to wait after a write to the clipboard, until the content is ready there.
pub fn get_write_delay_ms(item_type: &str, size_bytes: usize) -> (r: u64)
    ensures
        r == write_delay(item_type@, size_bytes as int),
{
    if is_text_like(item_type) {
        pick(size_bytes, 100, 1000, 15, 25, 40)
    } else if same(item_type, "image") {
        pick(size_bytes, 1_000_000, 5_000_001, 40, 75, 150)
    } else if is_formatted_like(item_type) {
        pick(size_bytes, 1000, 5000, 25, 35, 50)
    } else if same(item_type, "files") {
        40
    } else {
        30
    }
}

/// The milliseconds to wait after a paste, until the content has arrived.
pub fn get_paste_delay_ms(item_type: &str, size_bytes: usize) -> (r: u64)
    ensures
        r == paste_delay(item_type@, size_bytes as int),
{
    if is_text_like(item_type) {
        pick(size_bytes, 100, 1000, 20, 25, 30)
    } else if same(item_type, "image") {
        pick(size_bytes, 1_000_000, 5_000_000, 40, 50, 60)
    } else if is_formatted_like(item_type) || same(item_type, "files") {
        40
    } else {
        30
    }
}

/// A larger content of the same type never waits less, neither before nor after its paste.
pub proof fn law_delays_grow_with_size(item_type: Seq<char>, smaller: int, larger: int)
    requires
        smaller <= larger,
    ensures
        write_delay(item_type, smaller) <= write_delay(item_type, larger),
        paste_delay(item_type, smaller) <= paste_delay(item_type, larger),
{
}

/// Every write waits between 15 and 150 milliseconds and every paste between 20 and 60, whatever
/// the type and the size.
pub proof fn law_delays_are_bounded(item_type: Seq<char>, size: int)
    ensures
        15 <= write_delay(item_type, size) <= 150,
        20 <= paste_delay(item_type, size) <= 60,
{
}

/// A text, code, colour, Markdown, link or path waits by its length: below 100 bytes, below 1000,
/// or more.
pub proof fn law_text_delays(item_type: Seq<char>, size: int)
    requires
        item_type == "text"@ || item_type == "code"@ || item_type == "color"@ || item_type
            == "markdown"@ || item_type == "link"@ || item_type == "path"@,
    ensures
        size < 100 ==> write_delay(item_type, size) == 15 && paste_delay(item_type, size) == 20,
        100 <= size < 1000 ==> write_delay(item_type, size) == 25 && paste_delay(item_type, size)
            == 25,
        1000 <= size ==> write_delay(item_type, size) == 40 && paste_delay(item_type, size) == 30,
{
}

/// The types that wait by a rule of their own have different names.
proof fn lemma_type_names()
    ensures
        !text_like("image"@) && !formatted_like("image"@),
        !text_like("files"@) && !formatted_like("files"@),
        "image"@ != "files"@,
        forall|t: Seq<char>| #[trigger] formatted_like(t) ==> !text_like(t) && t != "image"@,
{
    reveal_strlit("image");
    reveal_strlit("files");
    reveal_strlit("text");
    reveal_strlit("code");
    reveal_strlit("color");
    reveal_strlit("markdown");
    reveal_strlit("link");
    reveal_strlit("path");
    reveal_strlit("formatted");
    reveal_strlit("html");
    reveal_strlit("rtf");
    assert("image"@[0] != "files"@[0]);
    assert("image"@[0] != "color"@[0]);
    assert("files"@[0] != "color"@[0]);
    assert("html"@[0] != "text"@[0] && "html"@[0] != "code"@[0] && "html"@[0] != "link"@[0]
        && "html"@[0] != "path"@[0]);
    assert("formatted"@.len() == 9 && "markdown"@.len() == 8 && "rtf"@.len() == 3);
    assert("html"@.len() == 4 && "image"@.len() == 5 && "files"@.len() == 5);
    assert("text"@.len() == 4 && "code"@.len() == 4 && "link"@.len() == 4 && "path"@.len() == 4);
    assert("color"@.len() == 5);
}

/// An image waits by the size of its file: below a million bytes, up to five millions, or more; the
/// wait after the paste is the longest from five millions on.
pub proof fn law_image_delays(size: int)
    ensures
        size < 1_000_000 ==> write_delay("image"@, size) == 40,
        1_000_000 <= size <= 5_000_000 ==> write_delay("image"@, size) == 75,
        5_000_000 < size ==> write_delay("image"@, size) == 150,
        size < 1_000_000 ==> paste_delay("image"@, size) == 40,
        1_000_000 <= size < 5_000_000 ==> paste_delay("image"@, size) == 50,
        5_000_000 <= size ==> paste_delay("image"@, size) == 60,
{
    lemma_type_names();
}

/// A formatted text, page or rich text waits by its length before the paste, and 40 milliseconds
/// after it.
pub proof fn law_formatted_delays(item_type: Seq<char>, size: int)
    requires
        item_type == "formatted"@ || item_type == "html"@ || item_type == "rtf"@,
    ensures
        size < 1000 ==> write_delay(item_type, size) == 25,
        1000 <= size < 5000 ==> write_delay(item_type, size) == 35,
        5000 <= size ==> write_delay(item_type, size) == 50,
        paste_delay(item_type, size) == 40,
{
    lemma_type_names();
    assert(formatted_like(item_type));
}

/// Files wait 40 milliseconds, and whatever is of another type 30, before the paste and after it.
pub proof fn law_other_delays(item_type: Seq<char>, size: int)
    ensures
        write_delay("files"@, size) == 40,
        paste_delay("files"@, size) == 40,
        item_type != "text"@ && item_type != "code"@ && item_type != "color"@ && item_type
            != "markdown"@ && item_type != "link"@ && item_type != "path"@ && item_type != "image"@
            && item_type != "formatted"@ && item_type != "html"@ && item_type != "rtf"@ && item_type
            != "files"@ ==> write_delay(item_type, size) == 30 && paste_delay(item_type, size)
            == 30,
{
    lemma_type_names();
}

/// The size of a content is that of its file exactly where it is an image or files, has a value, and
/// the size of the file is known; and otherwise the UTF-8 length of the value.
pub proof fn law_content_size(item_type: Seq<char>, value: Seq<char>, n: u64)
    ensures
        in_file(item_type, value) <==> (item_type == "image"@ || item_type == "files"@)
            && value.len() > 0,
        (item_type == "image"@ || item_type == "files"@) && value.len() > 0 && n <= usize::MAX
            ==> content_size(item_type, value, Some(n)) == n,
        !((item_type == "image"@ || item_type == "files"@) && value.len() > 0)
            ==> content_size(item_type, value, Some(n)) == vstd::utf8::encode_utf8(value).len(),
        content_size(item_type, value, None) == vstd::utf8::encode_utf8(value).len(),
{
}

} // verus!
