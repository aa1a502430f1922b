//! The commands of the plugin: listening, reading and writing.

use vstd::prelude::*;
use crate::manager;
use crate::manager::{ClipboardManager, ManagerState};
use crate::request::{ClipboardContent, ClipboardRequest, RequestView};
use crate::text;
use crate::text::{glue, joined, removed};

verus! {

/// Asks for a list of files on the clipboard, and records the write.
pub fn write_files(manager: &mut ClipboardManager, value: Vec<String>) -> (r: ClipboardRequest)
    ensures
        manager::recorded(
            old(manager)@,
            final(manager)@,
            "files:"@ + text::join(text::texts(value@), "|"@),
        ),
        r@ == RequestView::SetFiles(text::texts(value@)),
{
    let paths = joined(&value, "|");
    manager.record_write_fingerprint(glue("files:", paths.as_str()));
    ClipboardRequest::SetFiles(value)
}

/// Asks for the image in the file with this path on the clipboard, and records the write.
pub fn write_image(manager: &mut ClipboardManager, value: String) -> (r: ClipboardRequest)
    ensures
        manager::recorded(old(manager)@, final(manager)@, "image:"@ + value@),
        r@ == RequestView::SetImage(value@),
{
    manager.write_image(value)
}

/// Asks for a page on the clipboard, with the plain text to fall back on, and records the write.
pub fn write_html(manager: &mut ClipboardManager, text: String, html: String) -> (r:
    ClipboardRequest)
    ensures
        manager::recorded(old(manager)@, final(manager)@, "html:"@ + text@),
        r@ == RequestView::SetContents(seq![ClipboardContent::Html(html@), ClipboardContent::Text(text@)]),
{
    manager.write_html(text, html)
}

/// Asks for a rich text on the clipboard, with the plain text to fall back on, and records the
/// write.
pub fn write_rtf(manager: &mut ClipboardManager, text: String, rtf: String) -> (r: ClipboardRequest)
    ensures
        manager::recorded(old(manager)@, final(manager)@, "rtf:"@ + text@),
        r@ == RequestView::SetContents(manager::rtf_contents(old(manager)@.platform, text@, rtf@)),
{
    manager.write_rtf(text, rtf)
}

/// Asks for a text on the clipboard, and records the write.
pub fn write_text(manager: &mut ClipboardManager, value: String) -> (r: ClipboardRequest)
    ensures
        manager::recorded(old(manager)@, final(manager)@, "text:"@ + value@),
        r@ == RequestView::SetText(value@),
{
    manager.record_write_fingerprint(glue("text:", value.as_str()));
    ClipboardRequest::SetText(value)
}

/// The paths of the files that the clipboard gave, without the scheme `file://`.
pub open spec fn plain_paths(files: Seq<Seq<char>>) -> Seq<Seq<char>> {
    files.map_values(|path: Seq<char>| text::without(path, "file://"@))
}

/// What reading the files of the clipboard answers, given what the clipboard answered.
pub fn read_files(files: Result<Vec<String>, String>) -> (r: Result<Vec<String>, String>)
    ensures
        match files {
            Ok(list) => r matches Ok(paths) && text::texts(paths@) == plain_paths(
                text::texts(list@),
            ),
            Err(e) => r == Err::<Vec<String>, String>(e),
        },
{
    match files {
        Err(e) => Err(e),
        Ok(list) => {
            let mut paths: Vec<String> = Vec::new();
            let mut i: usize = 0;
            proof {
                reveal_strlit("file://");
            }
            while i < list.len()
                invariant
                    i <= list@.len(),
                    "file://"@.len() > 0,
                    text::texts(paths@) == plain_paths(text::texts(list@)).take(i as int),
                decreases list@.len() - i,
            {
                let path = removed(list[i].as_str(), "file://");
                let ghost before = paths@;
                let ghost last = path@;
                paths.push(path);
                assert(text::texts(paths@) =~= text::texts(before).push(last));
                assert(plain_paths(text::texts(list@)).take(i + 1) =~= plain_paths(
                    text::texts(list@),
                ).take(i as int).push(last));
                i = i + 1;
            }
            assert(text::texts(paths@) =~= plain_paths(text::texts(list@)));
            Ok(paths)
        },
    }
}

/// What is to be done about the watcher of the clipboard.
#[derive(Clone, Copy, Debug, PartialEq, Eq, Structural)]
pub enum WatcherAction {
    Nothing,
    /// Stop the watcher that is running.
    StopWatcher,
    /// Create a watcher, and tell `watcher_created` how that went.
    StartWatcher,
}

/// The state of a manager that may not have been set up.
pub open spec fn state_of(manager: Option<ClipboardManager>) -> Option<ManagerState> {
    match manager {
        Some(m) => Some(m@),
        None => None,
    }
}

/// A manager that is set up and listening.
pub open spec fn listens(manager: Option<ManagerState>) -> bool {
    manager matches Some(state) && state.listening
}

/// A call about listening.
pub enum ListenCall {
    /// `toggle_listen`.
    Toggle,
    /// `start_listen_inner`.
    Start,
    /// `watcher_created`, with whether the watcher could be created.
    Created { ok: bool },
    /// `stop_listen`.
    Stop,
}

/// The state of a manager after a call about listening.
pub open spec fn after_call(state: ManagerState, call: ListenCall) -> ManagerState {
    match call {
        ListenCall::Toggle => ManagerState { listening: false, ..state },
        ListenCall::Start => state,
        ListenCall::Created { ok } => ManagerState { listening: state.listening || ok, ..state },
        ListenCall::Stop => ManagerState { listening: false, ..state },
    }
}

/// What a call about listening asks for, of a manager in this state.
pub open spec fn asked_by(state: ManagerState, call: ListenCall) -> WatcherAction {
    match call {
        ListenCall::Toggle => if state.listening {
            WatcherAction::StopWatcher
        } else {
            WatcherAction::StartWatcher
        },
        ListenCall::Start => if state.listening {
            WatcherAction::Nothing
        } else {
            WatcherAction::StartWatcher
        },
        ListenCall::Created { .. } => WatcherAction::Nothing,
        ListenCall::Stop => if state.listening {
            WatcherAction::StopWatcher
        } else {
            WatcherAction::Nothing
        },
    }
}

/// Stops listening where the plugin is listening, and begins it where it is not. Without a
/// manager nothing happens.
pub fn toggle_listen(manager: &mut Option<ClipboardManager>) -> (r: WatcherAction)
    ensures
        match state_of(*old(manager)) {
            None => *final(manager) is None && r == WatcherAction::Nothing,
            Some(state) => {
                &&& state_of(*final(manager)) == Some(after_call(state, ListenCall::Toggle))
                &&& r == asked_by(state, ListenCall::Toggle)
            },
        },
{
    match manager {
        None => WatcherAction::Nothing,
        Some(m) => {
            match stop_listen(m) {
                WatcherAction::StopWatcher => WatcherAction::StopWatcher,
                _ => WatcherAction::StartWatcher,
            }
        },
    }
}

/// Begins listening where the plugin is not listening. Without a manager this is an error.
pub fn start_listen_inner(manager: &Option<ClipboardManager>) -> (r: Result<WatcherAction, String>)
    ensures
        match state_of(*manager) {
            None => r matches Err(e) && e@ == "ClipboardManager 未初始化"@,
            Some(state) => r == Ok::<WatcherAction, String>(asked_by(state, ListenCall::Start)),
        },
{
    match manager {
        None => Err("ClipboardManager 未初始化".to_string()),
        Some(m) => {
            if m.is_listening() {
                Ok(WatcherAction::Nothing)
            } else {
                Ok(WatcherAction::StartWatcher)
            }
        },
    }
}

/// Takes note of how the creation of a watcher went.
pub fn watcher_created(manager: &mut ClipboardManager, outcome: Result<(), String>) -> (r: Result<
    (),
    String,
>)
    ensures
        final(manager)@ == after_call(old(manager)@, ListenCall::Created { ok: outcome is Ok }),
        match outcome {
            Ok(_) => r is Ok,
            Err(e) => r matches Err(message) && message@ == "创建监听器失败: "@ + e@,
        },
{
    match outcome {
        Ok(_) => {
            manager.set_listening(true);
            Ok(())
        },
        Err(e) => Err(glue("创建监听器失败: ", e.as_str())),
    }
}

/// Whether the plugin is set up and listening.
pub fn is_listen_enabled(manager: &Option<ClipboardManager>) -> (r: bool)
    ensures
        r == listens(state_of(*manager)),
{
    match manager {
        None => false,
        Some(m) => m.is_listening(),
    }
}

/// Stops listening.
pub fn stop_listen(manager: &mut ClipboardManager) -> (r: WatcherAction)
    ensures
        final(manager)@ == after_call(old(manager)@, ListenCall::Stop),
        r == asked_by(old(manager)@, ListenCall::Stop),
{
    let was_listening = manager.is_listening();
    manager.set_listening(false);
    if was_listening {
        WatcherAction::StopWatcher
    } else {
        WatcherAction::Nothing
    }
}

/// The state of a manager after several calls about listening.
pub open spec fn after_calls(state: ManagerState, calls: Seq<ListenCall>) -> ManagerState
    decreases calls.len(),
{
    if calls.len() == 0 {
        state
    } else {
        after_call(after_calls(state, calls.drop_last()), calls.last())
    }
}

/// A watcher that was created during these calls has not been stopped since.
pub open spec fn watched(state: ManagerState, calls: Seq<ListenCall>) -> bool
    decreases calls.len(),
{
    if calls.len() == 0 {
        false
    } else {
        let before = after_calls(state, calls.drop_last());
        if calls.last() == (ListenCall::Created { ok: true }) {
            true
        } else if asked_by(before, calls.last()) == WatcherAction::StopWatcher {
            false
        } else {
            watched(state, calls.drop_last())
        }
    }
}

/// Whatever is called, and in whatever order, a manager that was not listening listens exactly
/// while a watcher that was created has not been stopped; nothing else of it changes.
pub proof fn law_listening_while_watched(state: ManagerState, calls: Seq<ListenCall>)
    requires
        !state.listening,
    ensures
        after_calls(state, calls) == (ManagerState { listening: watched(state, calls), ..state }),
    decreases calls.len(),
{
    if calls.len() > 0 {
        law_listening_while_watched(state, calls.drop_last());
    }
}

/// A watcher is asked for only while there is none, and one is stopped only while there is one.
pub proof fn law_one_watcher_at_a_time(
    state: ManagerState,
    calls: Seq<ListenCall>,
    call: ListenCall,
)
    requires
        !state.listening,
    ensures
        asked_by(after_calls(state, calls), call) == WatcherAction::StartWatcher ==> !watched(
            state,
            calls,
        ),
        asked_by(after_calls(state, calls), call) == WatcherAction::StopWatcher ==> watched(
            state,
            calls,
        ),
{
    law_listening_while_watched(state, calls);
}

/// The state of a manager after a toggle, and after the watcher that it may have asked for.
pub open spec fn toggled(state: ManagerState) -> ManagerState {
    let after = after_call(state, ListenCall::Toggle);
    if asked_by(state, ListenCall::Toggle) == WatcherAction::StartWatcher {
        after_call(after, ListenCall::Created { ok: true })
    } else {
        after
    }
}

/// Toggling twice leaves everything as it was, where the watchers can be created.
pub proof fn law_toggle_twice_restores(state: ManagerState)
    ensures
        toggled(toggled(state)) == state,
{
}

/// A path loses each `file://` that a search from left to right meets, and the paths keep their
/// number and order.
pub proof fn law_paths_lose_their_scheme(files: Seq<Seq<char>>)
    ensures
        plain_paths(files).len() == files.len(),
        forall|i: int|
            0 <= i < files.len() ==> #[trigger] plain_paths(files)[i] == text::without(
                files[i],
                seq!['f', 'i', 'l', 'e', ':', '/', '/'],
            ),
        forall|i: int|
            0 <= i < files.len() && !text::occurs_in("file://"@, files[i])
                ==> #[trigger] plain_paths(files)[i] == files[i],
{
    reveal_strlit("file://");
    assert("file://"@ =~= seq!['f', 'i', 'l', 'e', ':', '/', '/']);
    assert forall|i: int| 0 <= i < files.len() && !text::occurs_in("file://"@, files[i]) implies
        #[trigger] plain_paths(files)[i] == files[i] by {
        text::law_without_absent(files[i], "file://"@);
    }
}

/// Whoever is listening is stopped by a toggle and by a stop; whoever is not begins by a toggle and
/// by a start. A start stops nobody, and a stop begins nothing.
pub proof fn law_calls_begin_and_end_listening(state: ManagerState)
    ensures
        state.listening ==> asked_by(state, ListenCall::Toggle) is StopWatcher,
        state.listening ==> asked_by(state, ListenCall::Stop) is StopWatcher,
        state.listening ==> asked_by(state, ListenCall::Start) is Nothing,
        !state.listening ==> asked_by(state, ListenCall::Toggle) is StartWatcher,
        !state.listening ==> asked_by(state, ListenCall::Start) is StartWatcher,
        !state.listening ==> asked_by(state, ListenCall::Stop) is Nothing,
        after_call(state, ListenCall::Start) == state,
        after_call(state, ListenCall::Created { ok: false }) == state,
        after_call(state, ListenCall::Created { ok: true }).listening,
        !after_call(state, ListenCall::Toggle).listening,
        !after_call(state, ListenCall::Stop).listening,
{
}

/// The state of a manager is that of the manager, and a manager listens where it is set up and its
/// state says so.
pub proof fn law_state_of(manager: ClipboardManager)
    ensures
        state_of(Some(manager)) == Some(manager@),
        state_of(None::<ClipboardManager>) is None,
        listens(state_of(Some(manager))) == manager@.listening,
        !listens(None),
{
}

} // verus!
