//! What the clipboard plugin remembers between two clipboard changes: its own last write and
//! whether it is listening.

use vstd::prelude::*;
use crate::clock::now_millis;
use crate::request::{ClipboardContent, ClipboardRequest, RequestView};
use crate::text;
use crate::text::{chars, contains, glue, rest_behind, split, starts_with};

verus! {

/// How long, in milliseconds, a clipboard change may follow a write of this program and still
/// count as caused by it.
pub const OWN_WRITE_WINDOW_MS: u64 = 500;

/// The operating systems that the plugin tells apart.
#[derive(Clone, Copy, Debug, PartialEq, Eq, Structural)]
pub enum Platform {
    MacOs,
    Other,
}

/// What a `ClipboardManager` holds.
pub struct ManagerState {
    /// When this program last wrote to the clipboard, in milliseconds since the Unix epoch.
    pub write_time: u64,
    /// What it wrote, as a kind and a content with a colon between them.
    pub fingerprint: Seq<char>,
    /// Whether a watcher is running.
    pub listening: bool,
    pub platform: Platform,
}

/// The memory of the clipboard plugin.
pub struct ClipboardManager {
    write_time: u64,
    fingerprint: String,
    listening: bool,
    platform: Platform,
}

impl View for ClipboardManager {
    type V = ManagerState;

    closed spec fn view(&self) -> ManagerState {
        ManagerState {
            write_time: self.write_time,
            fingerprint: self.fingerprint@,
            listening: self.listening,
            platform: self.platform,
        }
    }
}

/// The content that a fingerprint holds: what stands behind its first colon.
pub open spec fn fingerprint_content(fingerprint: Seq<char>) -> Option<Seq<char>> {
    text::behind(fingerprint, ':')
}

/// The paths that a fingerprint with this content may stand for: those of a list of files, with
/// bars between them, and otherwise the content itself.
pub open spec fn fingerprint_paths(fingerprint: Seq<char>, content: Seq<char>) -> Seq<Seq<char>> {
    if "files:"@.is_prefix_of(fingerprint) {
        text::pieces(content, '|')
    } else {
        seq![content]
    }
}

/// A text on the clipboard agrees with the content of a fingerprint: one holds the other.
pub open spec fn text_agrees(content: Seq<char>, text: Seq<char>) -> bool {
    &&& text.len() > 0
    &&& text::occurs_in(content, text) || text.is_prefix_of(content)
}

/// A list of files on the clipboard agrees with the paths of a fingerprint: one of the files begins
/// with one of the paths.
pub open spec fn files_agree(paths: Seq<Seq<char>>, files: Seq<Seq<char>>) -> bool {
    exists|i: int, j: int|
        0 <= i < paths.len() && 0 <= j < files.len() && (#[trigger] paths[i]).is_prefix_of(
            #[trigger] files[j],
        )
}

/// A clipboard change at time `now` that shows this text, these files and perhaps an image was
/// caused by this program.
pub open spec fn own_write(
    manager: ManagerState,
    now: u64,
    text: Seq<char>,
    has_image: bool,
    has_files: bool,
    files: Seq<Seq<char>>,
) -> bool {
    &&& now - manager.write_time <= OWN_WRITE_WINDOW_MS
    &&& {
        ||| has_image && "image:"@.is_prefix_of(manager.fingerprint)
        ||| fingerprint_content(manager.fingerprint) matches Some(content) && text_agrees(
            content,
            text,
        )
        ||| fingerprint_content(manager.fingerprint) matches Some(content) && has_files
            && files_agree(fingerprint_paths(manager.fingerprint, content), files)
    }
}

/// `after` differs from `before` in that a write with this fingerprint has been recorded, at a
/// time that the clock gave.
pub open spec fn recorded(
    before: ManagerState,
    after: ManagerState,
    fingerprint: Seq<char>,
) -> bool {
    &&& after == ManagerState { write_time: after.write_time, fingerprint, ..before }
    &&& after.write_time <= i64::MAX
}

/// The representations that stand for a rich text: the rich text, then the plain text, which
/// macOS does without.
pub open spec fn rtf_contents(
    platform: Platform,
    text: Seq<char>,
    rtf: Seq<char>,
) -> Seq<ClipboardContent<Seq<char>>> {
    match platform {
        Platform::MacOs => seq![ClipboardContent::Rtf(rtf)],
        Platform::Other => seq![ClipboardContent::Rtf(rtf), ClipboardContent::Text(text)],
    }
}

/// Whether one of the files begins with one of the paths.
fn any_begins_with(files: &[String], paths: &Vec<Vec<char>>) -> (r: bool)
    ensures
        r == files_agree(text::char_lists(paths@), text::texts(files@)),
{
    let ghost beginnings = text::char_lists(paths@);
    let ghost names = text::texts(files@);
    let mut j: usize = 0;
    while j < files.len()
        invariant
            j <= files@.len(),
            beginnings == text::char_lists(paths@),
            names == text::texts(files@),
            forall|i: int, k: int|
                0 <= i < beginnings.len() && 0 <= k < j ==> !(
                #[trigger] beginnings[i]).is_prefix_of(#[trigger] names[k]),
        decreases files@.len() - j,
    {
        let file = chars(files[j].as_str());
        let mut i: usize = 0;
        while i < paths.len()
            invariant
                i <= paths@.len(),
                j < files@.len(),
                beginnings == text::char_lists(paths@),
                names == text::texts(files@),
                file@ == names[j as int],
                forall|k: int|
                    0 <= k < i ==> !(#[trigger] beginnings[k]).is_prefix_of(names[j as int]),
            decreases paths@.len() - i,
        {
            assert(beginnings[i as int] == paths@[i as int]@);
            if starts_with(&file, &paths[i]) {
                assert(beginnings[i as int].is_prefix_of(names[j as int]));
                return true;
            }
            i = i + 1;
        }
        j = j + 1;
    }
    false
}

impl ClipboardManager {
    /// A manager that has written nothing and is not listening.
    pub fn new(platform: Platform) -> (r: Self)
        ensures
            r@ == (ManagerState {
                write_time: 0,
                fingerprint: Seq::empty(),
                listening: false,
                platform,
            }),
    {
        ClipboardManager { write_time: 0, fingerprint: String::new(), listening: false, platform }
    }

    /// Whether a watcher is running.
    pub(crate) fn is_listening(&self) -> (r: bool)
        ensures
            r == self@.listening,
    {
        self.listening
    }

    /// Takes note of whether a watcher is running.
    pub(crate) fn set_listening(&mut self, listening: bool)
        ensures
            final(self)@ == (ManagerState { listening, ..old(self)@ }),
    {
        self.listening = listening;
    }

    /// Remembers a write to the clipboard under the time of the clock.
    pub fn record_write_fingerprint(&mut self, fingerprint: String)
        ensures
            recorded(old(self)@, final(self)@, fingerprint@),
    {
        let now = now_millis();
        self.record_write_fingerprint_at(now as u64, fingerprint);
    }

    /// Remembers a write to the clipboard that was made at time `now`.
    pub fn record_write_fingerprint_at(&mut self, now: u64, fingerprint: String)
        ensures
            final(self)@ == (ManagerState {
                write_time: now,
                fingerprint: fingerprint@,
                ..old(self)@
            }),
    {
        self.write_time = now;
        self.fingerprint = fingerprint;
    }

    /// Whether the clipboard change that the caller is looking at was caused by this program,
    /// by the clock and by what the clipboard shows.
    pub fn is_own_write(
        &self,
        current_text: &str,
        has_image: bool,
        has_files: bool,
        current_files: &[String],
    ) -> (r: bool)
        ensures
            exists|now: u64|
                now <= i64::MAX && r == #[trigger] own_write(
                    self@,
                    now,
                    current_text@,
                    has_image,
                    has_files,
                    text::texts(current_files@),
                ),
    {
        let now = now_millis();
        self.is_own_write_at(now as u64, current_text, has_image, has_files, current_files)
    }

    /// Whether a clipboard change at time `now` was caused by this program.
    pub fn is_own_write_at(
        &self,
        now: u64,
        current_text: &str,
        has_image: bool,
        has_files: bool,
        current_files: &[String],
    ) -> (r: bool)
        ensures
            r == own_write(
                self@,
                now,
                current_text@,
                has_image,
                has_files,
                text::texts(current_files@),
            ),
    {
        if now > self.write_time && now - self.write_time > OWN_WRITE_WINDOW_MS {
            return false;
        }
        let fingerprint = chars(self.fingerprint.as_str());
        if has_image && starts_with(&fingerprint, &chars("image:")) {
            return true;
        }
        match rest_behind(&fingerprint, ':') {
            None => false,
            Some(content) => {
                let text = chars(current_text);
                if text.len() > 0 && (contains(&text, &content) || starts_with(&content, &text)) {
                    return true;
                }
                if !has_files {
                    return false;
                }
                let ghost whole = content@;
                let paths = if starts_with(&fingerprint, &chars("files:")) {
                    split(&content, '|')
                } else {
                    let mut only: Vec<Vec<char>> = Vec::new();
                    only.push(content);
                    assert(text::char_lists(only@) =~= seq![whole]);
                    only
                };
                any_begins_with(current_files, &paths)
            },
        }
    }

    /// Records a write of plain text and asks for it: the text takes the place of all that the
    /// clipboard holds, in every format.
    pub fn write_text(&mut self, value: String) -> (r: ClipboardRequest)
        ensures
            recorded(old(self)@, final(self)@, "text:"@ + value@),
            r@ == RequestView::SetContents(seq![ClipboardContent::Text(value@)]),
    {
        self.record_write_fingerprint(glue("text:", value.as_str()));
        let mut contents: Vec<ClipboardContent> = Vec::new();
        contents.push(ClipboardContent::Text(value));
        ClipboardRequest::SetContents(contents)
    }

    /// Records a write of a page and asks for it, with the plain text to fall back on.
    pub fn write_html(&mut self, text: String, html: String) -> (r: ClipboardRequest)
        ensures
            recorded(old(self)@, final(self)@, "html:"@ + text@),
            r@ == RequestView::SetContents(
                seq![ClipboardContent::Html(html@), ClipboardContent::Text(text@)],
            ),
    {
        self.record_write_fingerprint(glue("html:", text.as_str()));
        let mut contents: Vec<ClipboardContent> = Vec::new();
        contents.push(ClipboardContent::Html(html));
        contents.push(ClipboardContent::Text(text));
        ClipboardRequest::SetContents(contents)
    }

    /// Records a write of rich text and asks for it, with the plain text to fall back on.
    pub fn write_rtf(&mut self, text: String, rtf: String) -> (r: ClipboardRequest)
        ensures
            recorded(old(self)@, final(self)@, "rtf:"@ + text@),
            r@ == RequestView::SetContents(rtf_contents(old(self)@.platform, text@, rtf@)),
    {
        self.record_write_fingerprint(glue("rtf:", text.as_str()));
        let mut contents: Vec<ClipboardContent> = Vec::new();
        contents.push(ClipboardContent::Rtf(rtf));
        match self.platform {
            Platform::MacOs => {},
            Platform::Other => {
                contents.push(ClipboardContent::Text(text));
            },
        }
        ClipboardRequest::SetContents(contents)
    }

    /// Records a write of the image in the file with this path and asks for it.
    pub fn write_image(&mut self, path: String) -> (r: ClipboardRequest)
        ensures
            recorded(old(self)@, final(self)@, "image:"@ + path@),
            r@ == RequestView::SetImage(path@),
    {
        self.record_write_fingerprint(glue("image:", path.as_str()));
        ClipboardRequest::SetImage(path)
    }
}

/// The prefixes under which a write of text is recorded.
pub open spec fn text_prefix(prefix: Seq<char>) -> bool {
    prefix == "text:"@ || prefix == "html:"@ || prefix == "rtf:"@
}

/// The content of a fingerprint whose prefix ends in its only colon.
proof fn lemma_fingerprint_content(prefix: Seq<char>, content: Seq<char>)
    requires
        prefix.len() > 0,
        prefix.last() == ':',
        forall|i: int| 0 <= i < prefix.len() - 1 ==> prefix[i] != ':',
    ensures
        fingerprint_content(prefix + content) == Some(content),
{
    let all = prefix + content;
    let at = prefix.len() - 1;
    all.index_of_first_ensures(':');
    assert(all[at] == ':');
    let found = all.index_of_first(':')->0;
    assert(found == at) by {
        if found < at {
            assert(prefix[found] == ':');
        }
    }
    assert(all.skip(at + 1) =~= content);
}

/// The fingerprints that this program records hold what follows their prefix.
proof fn lemma_known_prefix(prefix: Seq<char>, content: Seq<char>)
    requires
        text_prefix(prefix) || prefix == "image:"@ || prefix == "files:"@,
    ensures
        fingerprint_content(prefix + content) == Some(content),
        prefix.is_prefix_of(prefix + content),
{
    reveal_strlit("text:");
    reveal_strlit("html:");
    reveal_strlit("rtf:");
    reveal_strlit("image:");
    reveal_strlit("files:");
    lemma_fingerprint_content(prefix, content);
    assert(prefix =~= (prefix + content).subrange(0, prefix.len() as int));
}

/// A text that this program wrote, plainly or beside a page or a rich text, is recognised as its
/// own when the clipboard shows it within the time window.
pub proof fn law_text_write_is_recognised(
    before: ManagerState,
    after: ManagerState,
    prefix: Seq<char>,
    value: Seq<char>,
    now: u64,
    has_image: bool,
    has_files: bool,
    files: Seq<Seq<char>>,
)
    requires
        text_prefix(prefix),
        recorded(before, after, prefix + value),
        value.len() > 0,
        now - after.write_time <= OWN_WRITE_WINDOW_MS,
    ensures
        own_write(after, now, value, has_image, has_files, files),
{
    lemma_known_prefix(prefix, value);
    assert(value.subrange(0, value.len() as int) =~= value);
    assert(text::occurs_at(value, value, 0));
}

/// A text that neither holds a text that this program wrote nor begins it is not taken for it, with
/// whatever image beside it.
pub proof fn law_other_text_is_not_recognised(
    before: ManagerState,
    after: ManagerState,
    prefix: Seq<char>,
    value: Seq<char>,
    now: u64,
    shown: Seq<char>,
    has_image: bool,
    files: Seq<Seq<char>>,
)
    requires
        text_prefix(prefix),
        recorded(before, after, prefix + value),
        !text::occurs_in(value, shown),
        !shown.is_prefix_of(value),
    ensures
        !own_write(after, now, shown, has_image, false, files),
{
    lemma_known_prefix(prefix, value);
    reveal_strlit("text:");
    reveal_strlit("html:");
    reveal_strlit("rtf:");
    reveal_strlit("image:");
    let all = prefix + value;
    if "image:"@.is_prefix_of(all) {
        assert(all.subrange(0, "image:"@.len() as int)[0] == 'i');
        assert(all[0] == prefix[0]);
    }
}

/// An image that this program wrote is recognised as its own when the clipboard shows an image
/// within the time window.
pub proof fn law_image_write_is_recognised(
    before: ManagerState,
    after: ManagerState,
    path: Seq<char>,
    now: u64,
    shown: Seq<char>,
    has_files: bool,
    files: Seq<Seq<char>>,
)
    requires
        recorded(before, after, "image:"@ + path),
        now - after.write_time <= OWN_WRITE_WINDOW_MS,
    ensures
        own_write(after, now, shown, true, has_files, files),
{
    assert("image:"@ =~= ("image:"@ + path).subrange(0, "image:"@.len() as int));
}

/// Files that this program wrote are recognised as its own when the clipboard shows them within
/// the time window.
pub proof fn law_file_write_is_recognised(
    before: ManagerState,
    after: ManagerState,
    value: Seq<Seq<char>>,
    now: u64,
    shown: Seq<char>,
    has_image: bool,
)
    requires
        recorded(before, after, "files:"@ + text::join(value, "|"@)),
        now - after.write_time <= OWN_WRITE_WINDOW_MS,
        value.len() > 0,
    ensures
        own_write(after, now, shown, has_image, true, value),
{
    let all = text::join(value, "|"@);
    lemma_known_prefix("files:"@, all);
    lemma_first_path(value);
    let paths = text::pieces(all, '|');
    assert(paths[0].is_prefix_of(value[0]));
    assert(files_agree(paths, value));
}

/// Each of the files that this program wrote is recognised as its own when the clipboard shows it
/// within the time window, alone or among others, if no path holds a bar.
pub proof fn law_each_written_file_is_recognised(
    before: ManagerState,
    after: ManagerState,
    value: Seq<Seq<char>>,
    i: int,
    now: u64,
    shown: Seq<char>,
    has_image: bool,
    files: Seq<Seq<char>>,
)
    requires
        recorded(before, after, "files:"@ + text::join(value, "|"@)),
        now - after.write_time <= OWN_WRITE_WINDOW_MS,
        forall|k: int| 0 <= k < value.len() ==> !(#[trigger] value[k]).contains('|'),
        0 <= i < value.len(),
        files.contains(value[i]),
    ensures
        own_write(after, now, shown, has_image, true, files),
{
    let all = text::join(value, "|"@);
    lemma_known_prefix("files:"@, all);
    lemma_paths_come_back(value);
    let paths = text::pieces(all, '|');
    let j = choose|j: int| 0 <= j < files.len() && files[j] == value[i];
    assert(paths[i] == value[i]);
    assert(value[i] =~= value[i].subrange(0, value[i].len() as int));
    assert(paths[i].is_prefix_of(files[j]));
}

/// The first path of a list joined by bars begins the first text of the list.
proof fn lemma_first_path(list: Seq<Seq<char>>)
    requires
        list.len() > 0,
    ensures
        text::pieces(text::join(list, "|"@), '|').len() > 0,
        text::pieces(text::join(list, "|"@), '|')[0].is_prefix_of(list[0]),
    decreases list.len(),
{
    if list.len() == 1 {
        text::lemma_first_piece(list[0], '|');
    } else {
        let head = text::join(list.drop_last(), "|"@);
        lemma_first_path(list.drop_last());
        reveal_strlit("|");
        text::lemma_first_piece_stays(head, '|', list.last());
        assert(head + "|"@ =~= head.push('|'));
    }
}

/// A list of texts without bars, joined by bars, has the texts as its pieces.
proof fn lemma_paths_come_back(list: Seq<Seq<char>>)
    requires
        list.len() > 0,
        forall|k: int| 0 <= k < list.len() ==> !(#[trigger] list[k]).contains('|'),
    ensures
        text::pieces(text::join(list, "|"@), '|') == list,
    decreases list.len(),
{
    let last = list[list.len() - 1];
    if list.len() == 1 {
        text::lemma_last_piece(Seq::empty(), '|', last);
        assert(list =~= seq![last]);
    } else {
        let rest = list.drop_last();
        assert forall|k: int| 0 <= k < rest.len() implies !(#[trigger] rest[k]).contains('|') by {
            assert(rest[k] == list[k]);
        }
        lemma_paths_come_back(rest);
        let head = text::join(rest, "|"@);
        reveal_strlit("|");
        text::lemma_last_piece(head, '|', last);
        assert(head + "|"@ =~= head.push('|'));
        assert(rest.push(last) =~= list);
    }
}

/// A write that lies further back than the time window is never recognised.
pub proof fn law_stale_write_is_not_recognised(
    manager: ManagerState,
    now: u64,
    shown: Seq<char>,
    has_image: bool,
    has_files: bool,
    files: Seq<Seq<char>>,
)
    requires
        now - manager.write_time > OWN_WRITE_WINDOW_MS,
    ensures
        !own_write(manager, now, shown, has_image, has_files, files),
{
}

/// A manager that has recorded no write recognises nothing as its own.
pub proof fn law_unused_manager_recognises_nothing(
    manager: ManagerState,
    now: u64,
    shown: Seq<char>,
    has_image: bool,
    has_files: bool,
    files: Seq<Seq<char>>,
)
    requires
        manager.fingerprint == Seq::<char>::empty(),
    ensures
        !own_write(manager, now, shown, has_image, has_files, files),
{
    manager.fingerprint.index_of_first_ensures(':');
    reveal_strlit("image:");
}

/// A prefix that ends in its only colon begins a fingerprint exactly where the kind of the
/// fingerprint, which stands before its first colon, is that of the prefix.
proof fn lemma_kind(prefix: Seq<char>, name: Seq<char>, kind: Seq<char>, content: Seq<char>)
    requires
        prefix == name.push(':'),
        !name.contains(':'),
        !kind.contains(':'),
    ensures
        prefix.is_prefix_of(kind.push(':') + content) <==> kind == name,
{
    let all = kind.push(':') + content;
    if kind == name {
        assert(all.subrange(0, prefix.len() as int) =~= prefix);
    }
    if prefix.is_prefix_of(all) {
        let head = all.subrange(0, prefix.len() as int);
        assert(head[name.len() as int] == ':');
        assert(all[name.len() as int] == ':');
        if name.len() < kind.len() {
            assert(kind[name.len() as int] == ':');
        }
        if kind.len() < name.len() {
            assert(all[kind.len() as int] == ':');
            assert(head[kind.len() as int] == name[kind.len() as int]);
        }
        assert forall|i: int| 0 <= i < name.len() implies kind[i] == name[i] by {
            assert(head[i] == name[i]);
            assert(all[i] == kind[i]);
        }
        assert(kind =~= name);
    }
}

/// A change is taken for one of this program exactly where it comes within half a second of a write
/// and agrees with it: by an image where an image was written; by a text that holds what was written
/// or begins it; or by a file whose path begins with what was written, or with one of the written
/// paths where files were.
pub proof fn law_own_write_exactly(
    manager: ManagerState,
    kind: Seq<char>,
    content: Seq<char>,
    now: u64,
    shown: Seq<char>,
    has_image: bool,
    has_files: bool,
    files: Seq<Seq<char>>,
)
    requires
        !kind.contains(':'),
        manager.fingerprint == kind.push(':') + content,
    ensures
        own_write(manager, now, shown, has_image, has_files, files) <==> now <= manager.write_time
            + 500 && ((has_image && kind == seq!['i', 'm', 'a', 'g', 'e']) || (shown.len() > 0 && (
        text::occurs_in(content, shown) || shown.is_prefix_of(content))) || (has_files && exists|
            j: int,
        |
            0 <= j < files.len() && if kind == seq!['f', 'i', 'l', 'e', 's'] {
                exists|i: int|
                    0 <= i < text::pieces(content, '|').len() && (#[trigger] text::pieces(
                        content,
                        '|',
                    )[i]).is_prefix_of(files[j])
            } else {
                content.is_prefix_of(#[trigger] files[j])
            })),
{
    let image = seq!['i', 'm', 'a', 'g', 'e'];
    let list = seq!['f', 'i', 'l', 'e', 's'];
    reveal_strlit("image:");
    reveal_strlit("files:");
    assert("image:"@ =~= image.push(':'));
    assert("files:"@ =~= list.push(':'));
    lemma_kind("image:"@, image, kind, content);
    lemma_kind("files:"@, list, kind, content);
    text::law_behind(kind, ':', content);
    let paths = fingerprint_paths(manager.fingerprint, content);
    if kind != list {
        assert(paths =~= seq![content]);
        if files_agree(paths, files) {
            let (i, j) = choose|i: int, j: int|
                0 <= i < paths.len() && 0 <= j < files.len() && (
                #[trigger] paths[i]).is_prefix_of(#[trigger] files[j]);
            assert(content.is_prefix_of(files[j]));
        }
        if exists|j: int| 0 <= j < files.len() && content.is_prefix_of(#[trigger] files[j]) {
            let j = choose|j: int| 0 <= j < files.len() && content.is_prefix_of(#[trigger] files[j]);
            assert(paths[0].is_prefix_of(files[j]));
        }
    }
}

/// A fingerprint without a colon is never recognised.
pub proof fn law_fingerprint_needs_a_colon(
    manager: ManagerState,
    now: u64,
    shown: Seq<char>,
    has_image: bool,
    has_files: bool,
    files: Seq<Seq<char>>,
)
    requires
        !manager.fingerprint.contains(':'),
    ensures
        !own_write(manager, now, shown, has_image, has_files, files),
{
    text::law_behind(manager.fingerprint, ':', Seq::empty());
    reveal_strlit("image:");
    if "image:"@.is_prefix_of(manager.fingerprint) {
        assert(manager.fingerprint.subrange(0, 6)[5] == ':');
        assert(manager.fingerprint[5] == ':');
    }
}

/// A recorded write changes the fingerprint, to the one that was recorded, and the time; and nothing
/// else of the manager.
pub proof fn law_recorded(before: ManagerState, after: ManagerState, fingerprint: Seq<char>)
    ensures
        recorded(before, after, fingerprint) <==> after.fingerprint == fingerprint
            && after.listening == before.listening && after.platform == before.platform
            && after.write_time <= 0x7fff_ffff_ffff_ffff,
{
}

/// A rich text goes to the clipboard as it is, before its plain text, which macOS does without.
pub proof fn law_rtf_contents(text: Seq<char>, rtf: Seq<char>)
    ensures
        rtf_contents(Platform::Other, text, rtf) == seq![
            ClipboardContent::Rtf(rtf),
            ClipboardContent::Text(text),
        ],
        rtf_contents(Platform::MacOs, text, rtf) == seq![ClipboardContent::Rtf(rtf)],
{
}

} // verus!
