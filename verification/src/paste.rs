//! The paste commands: which record goes to the clipboard and which keystrokes follow.

use vstd::prelude::*;
use crate::delays;
use crate::delays::{get_content_size, get_write_delay_ms, wants_file_size};
use crate::item::{copy_text, HistoryItem};
use crate::listener;
use crate::listener::{ChangeEvent, ChangePhase};
use crate::lock::{QuickPasteLock, QuickPasteLockGuard};
use crate::manager;
use crate::manager::ManagerState;
use crate::text;
use crate::text::{glue, low_i32, same};
use crate::writing;

verus! {

/// A question to the history.
#[derive(Debug, PartialEq, Eq)]
pub struct QueryOptions<T = String, L = Vec<String>> {
    pub only_favorites: bool,
    pub exclude_deleted: bool,
    pub limit: Option<i32>,
    pub offset: Option<i32>,
    pub order_by: Option<T>,
    pub where_clause: Option<T>,
    pub params: Option<L>,
}

/// What a record gives `write_to_clipboard`.
#[derive(Debug, PartialEq, Eq)]
pub struct WriteArgs<T = String> {
    pub item_type: T,
    pub subtype: Option<T>,
    pub value: T,
    pub search: T,
    pub plain: bool,
}

/// One step of what follows a write.
#[derive(Clone, Copy, Debug, PartialEq, Eq, Structural)]
pub enum PasteStep {
    /// Wait for so many milliseconds.
    Sleep(u64),
    /// Paste into the window that has the focus.
    Paste,
    /// Paste into the window that had the focus last.
    PasteWithFocus,
    /// Press the Enter key.
    PressEnter,
}

/// What is to be done next by a paste command. `O` is a question, `Q` a list of them, `S` a list
/// of steps.
#[derive(Debug, PartialEq, Eq)]
pub enum PasteAction<T = String, O = QueryOptions, Q = Vec<QueryOptions>, S = Vec<PasteStep>> {
    /// Find the record at this place, counted from one; `quick_paste_query` makes the question.
    LookUp { index: u32 },
    /// Ask the history one question.
    Query { options: O },
    /// Ask the history one question after the other.
    QueryEach { queries: Q },
    /// Ask whether formatted records are pasted as plain text.
    AskPastePlain,
    /// Find the size of this file.
    MeasureFile { path: T },
    /// Write to the clipboard what `write_to_clipboard` asks for.
    Write { args: WriteArgs<T> },
    /// Take these steps, up to the first that fails.
    Perform { steps: S },
    /// The command is over.
    Finish { outcome: Result<(), T> },
}

/// How a question to the history was answered.
#[derive(Debug, PartialEq, Eq)]
pub enum QueryOutcome<T = String, I = Vec<HistoryItem>> {
    /// The question could not be put.
    Failed { error: T },
    /// The history refused it.
    Refused { error: T },
    Found { items: I },
}

/// The answer to an action.
#[derive(Debug, PartialEq, Eq)]
pub enum PasteEvent<T = String, I = Vec<HistoryItem>, E = Vec<Option<Vec<HistoryItem>>>> {
    Queried { answer: QueryOutcome<T, I> },
    /// What each question found, where the history did not refuse it, or why the questions could
    /// not be put.
    QueriedEach { answers: Result<E, T> },
    PastePlain { enabled: bool },
    /// The size of the file, if it could be found.
    Measured { size: Option<u64> },
    Written { outcome: Result<(), T> },
    Performed { outcome: Result<(), T> },
}

/// The records of a list, with their texts as sequences of characters.
pub open spec fn items_of(items: Seq<HistoryItem>) -> Seq<HistoryItem<Seq<char>>> {
    items.map_values(|i: HistoryItem| i@)
}

/// The lists of records that several questions found.
pub open spec fn found_of(found: Seq<Option<Vec<HistoryItem>>>) -> Seq<
    Option<Seq<HistoryItem<Seq<char>>>>,
> {
    found.map_values(
        |f: Option<Vec<HistoryItem>>|
            match f {
                Some(items) => Some(items_of(items@)),
                None => None,
            },
    )
}

/// An outcome, with the text of its error as a sequence of characters.
pub open spec fn outcome_of(outcome: Result<(), String>) -> Result<(), Seq<char>> {
    match outcome {
        Ok(_) => Ok(()),
        Err(e) => Err(e@),
    }
}

pub type ItemView = HistoryItem<Seq<char>>;

pub type OptionsView = QueryOptions<Seq<char>, Seq<Seq<char>>>;

pub type PasteActionView = PasteAction<Seq<char>, OptionsView, Seq<OptionsView>, Seq<PasteStep>>;

pub type PasteEventView = PasteEvent<Seq<char>, Seq<ItemView>, Seq<Option<Seq<ItemView>>>>;

impl View for QueryOptions {
    type V = OptionsView;

    open spec fn view(&self) -> OptionsView {
        QueryOptions {
            only_favorites: self.only_favorites,
            exclude_deleted: self.exclude_deleted,
            limit: self.limit,
            offset: self.offset,
            order_by: text::text_of(self.order_by),
            where_clause: text::text_of(self.where_clause),
            params: match self.params {
                Some(l) => Some(text::texts(l@)),
                None => None,
            },
        }
    }
}

impl View for WriteArgs {
    type V = WriteArgs<Seq<char>>;

    open spec fn view(&self) -> WriteArgs<Seq<char>> {
        WriteArgs {
            item_type: self.item_type@,
            subtype: text::text_of(self.subtype),
            value: self.value@,
            search: self.search@,
            plain: self.plain,
        }
    }
}

impl View for PasteAction {
    type V = PasteActionView;

    open spec fn view(&self) -> PasteActionView {
        match *self {
            PasteAction::LookUp { index } => PasteAction::LookUp { index },
            PasteAction::Query { options } => PasteAction::Query { options: options@ },
            PasteAction::QueryEach { queries } => PasteAction::QueryEach {
                queries: queries@.map_values(|q: QueryOptions| q@),
            },
            PasteAction::AskPastePlain => PasteAction::AskPastePlain,
            PasteAction::MeasureFile { path } => PasteAction::MeasureFile { path: path@ },
            PasteAction::Write { args } => PasteAction::Write { args: args@ },
            PasteAction::Perform { steps } => PasteAction::Perform { steps: steps@ },
            PasteAction::Finish { outcome } => PasteAction::Finish {
                outcome: outcome_of(outcome),
            },
        }
    }
}

impl View for QueryOutcome {
    type V = QueryOutcome<Seq<char>, Seq<ItemView>>;

    open spec fn view(&self) -> QueryOutcome<Seq<char>, Seq<ItemView>> {
        match *self {
            QueryOutcome::Failed { error } => QueryOutcome::Failed { error: error@ },
            QueryOutcome::Refused { error } => QueryOutcome::Refused { error: error@ },
            QueryOutcome::Found { items } => QueryOutcome::Found { items: items_of(items@) },
        }
    }
}

impl View for PasteEvent {
    type V = PasteEventView;

    open spec fn view(&self) -> PasteEventView {
        match *self {
            PasteEvent::Queried { answer } => PasteEvent::Queried { answer: answer@ },
            PasteEvent::QueriedEach { answers } => PasteEvent::QueriedEach {
                answers: match answers {
                    Ok(found) => Ok(found_of(found@)),
                    Err(e) => Err(e@),
                },
            },
            PasteEvent::PastePlain { enabled } => PasteEvent::PastePlain { enabled },
            PasteEvent::Measured { size } => PasteEvent::Measured { size },
            PasteEvent::Written { outcome } => PasteEvent::Written {
                outcome: outcome_of(outcome),
            },
            PasteEvent::Performed { outcome } => PasteEvent::Performed {
                outcome: outcome_of(outcome),
            },
        }
    }
}

/// What the caller is told where there is no database.
pub open spec fn no_database() -> Seq<char> {
    "数据库插件未初始化"@
}

/// What the caller is told where the history refused a question.
pub open spec fn refusal(error: Seq<char>) -> Seq<char> {
    "查询数据库失败: "@ + error
}

/// The type of a record; a record without one is a text.
pub open spec fn type_of(item: ItemView) -> Seq<char> {
    match item.item_type {
        Some(t) => t,
        None => "text"@,
    }
}

/// How a record is written as it is.
pub open spec fn own_args(item: ItemView) -> WriteArgs<Seq<char>> {
    WriteArgs {
        item_type: type_of(item),
        subtype: item.subtype,
        value: text::text_or_empty(item.value),
        search: text::text_or_empty(item.search),
        plain: false,
    }
}

/// How a text is written plainly.
pub open spec fn plain_args(text: Seq<char>) -> WriteArgs<Seq<char>> {
    WriteArgs { item_type: "text"@, subtype: None, value: text, search: text, plain: true }
}

/// The question for the record with this identifier.
pub open spec fn query_by_id(id: Seq<char>) -> OptionsView {
    QueryOptions {
        only_favorites: false,
        exclude_deleted: true,
        limit: Some(1),
        offset: None,
        order_by: None,
        where_clause: Some("id = ?"@),
        params: Some(seq![id]),
    }
}

/// The question for the record at this place, counted from one, the latest first.
pub open spec fn query_by_index(index: u32) -> OptionsView {
    QueryOptions {
        only_favorites: false,
        exclude_deleted: true,
        limit: Some(1),
        offset: Some(text::wrap_i32(index - 1) as i32),
        order_by: Some("time DESC"@),
        where_clause: None,
        params: None,
    }
}

pub(crate) fn make_type(item: &HistoryItem) -> (r: String)
    ensures
        r@ == type_of(item@),
{
    match &item.item_type {
        Some(t) => t.clone(),
        None => "text".to_string(),
    }
}

pub(crate) fn text_or_new(t: &Option<String>) -> (r: String)
    ensures
        r@ == text::text_or_empty(text::text_of(*t)),
{
    match t {
        Some(s) => s.clone(),
        None => String::new(),
    }
}

pub(crate) fn make_own_args(item: &HistoryItem) -> (r: WriteArgs)
    ensures
        r@ == own_args(item@),
{
    WriteArgs {
        item_type: make_type(item),
        subtype: copy_text(&item.subtype),
        value: text_or_new(&item.value),
        search: text_or_new(&item.search),
        plain: false,
    }
}

pub(crate) fn make_plain_args(text: &str) -> (r: WriteArgs)
    ensures
        r@ == plain_args(text@),
{
    WriteArgs {
        item_type: "text".to_string(),
        subtype: None,
        value: text.to_string(),
        search: text.to_string(),
        plain: true,
    }
}

impl WriteArgs {
    pub(crate) fn copy(&self) -> (r: Self)
        ensures
            r@ == self@,
    {
        WriteArgs {
            item_type: self.item_type.clone(),
            subtype: copy_text(&self.subtype),
            value: self.value.clone(),
            search: self.search.clone(),
            plain: self.plain,
        }
    }
}

pub(crate) fn copy_outcome(outcome: &Result<(), String>) -> (r: Result<(), String>)
    ensures
        outcome_of(r) == outcome_of(*outcome),
{
    match outcome {
        Ok(_) => Ok(()),
        Err(e) => Err(e.clone()),
    }
}

pub(crate) fn make_query_by_id(id: &str) -> (r: QueryOptions)
    ensures
        r@ == query_by_id(id@),
{
    let mut params: Vec<String> = Vec::new();
    params.push(id.to_string());
    assert(text::texts(params@) =~= seq![id@]);
    QueryOptions {
        only_favorites: false,
        exclude_deleted: true,
        limit: Some(1),
        offset: None,
        order_by: None,
        where_clause: Some("id = ?".to_string()),
        params: Some(params),
    }
}

/// The question for the record at this place, counted from one, the latest first.
pub fn quick_paste_query(index: u32) -> (r: QueryOptions)
    requires
        index >= 1,
    ensures
        r@ == query_by_index(index),
{
    QueryOptions {
        only_favorites: false,
        exclude_deleted: true,
        limit: Some(1),
        offset: Some(low_i32((index - 1) as u64)),
        order_by: Some("time DESC".to_string()),
        where_clause: None,
        params: None,
    }
}

/// Where a quick paste stands.
pub enum QuickPhase<T = String> {
    LookUp { index: u32 },
    Write { args: WriteArgs<T> },
    Paste,
    Done { outcome: Result<(), T> },
}

impl View for QuickPhase {
    type V = QuickPhase<Seq<char>>;

    open spec fn view(&self) -> QuickPhase<Seq<char>> {
        match *self {
            QuickPhase::LookUp { index } => QuickPhase::LookUp { index },
            QuickPhase::Write { args } => QuickPhase::Write { args: args@ },
            QuickPhase::Paste => QuickPhase::Paste,
            QuickPhase::Done { outcome } => QuickPhase::Done { outcome: outcome_of(outcome) },
        }
    }
}

/// A tenth of the wait of a quick paste, ten times, and the paste.
pub open spec fn quick_steps() -> Seq<PasteStep> {
    Seq::new(10, |i: int| PasteStep::Sleep(20)).push(PasteStep::Paste)
}

/// The phase of a quick paste after an answer. An answer to another action than the pending one
/// changes nothing.
pub open spec fn quick_next(phase: QuickPhase<Seq<char>>, event: PasteEventView) -> QuickPhase<
    Seq<char>,
> {
    match (phase, event) {
        (QuickPhase::LookUp { .. }, PasteEvent::Queried { answer }) => match answer {
            QueryOutcome::Failed { error } => QuickPhase::Done { outcome: Err(error) },
            QueryOutcome::Refused { error } => QuickPhase::Done { outcome: Err(refusal(error)) },
            QueryOutcome::Found { items } => if items.len() == 0 {
                QuickPhase::Done { outcome: Ok(()) }
            } else {
                QuickPhase::Write { args: own_args(items[0]) }
            },
        },
        (QuickPhase::Write { .. }, PasteEvent::Written { outcome }) => match outcome {
            Ok(_) => QuickPhase::Paste,
            Err(error) => QuickPhase::Done { outcome: Err(error) },
        },
        (QuickPhase::Paste, PasteEvent::Performed { outcome }) => QuickPhase::Done { outcome },
        _ => phase,
    }
}

/// The action whose answer a quick paste waits for.
pub open spec fn quick_action(phase: QuickPhase<Seq<char>>) -> PasteActionView {
    match phase {
        QuickPhase::LookUp { index } => PasteAction::LookUp { index },
        QuickPhase::Write { args } => PasteAction::Write { args },
        QuickPhase::Paste => PasteAction::Perform { steps: quick_steps() },
        QuickPhase::Done { outcome } => PasteAction::Finish { outcome },
    }
}

/// A quick paste: the record at a place in the history, into the window that has the focus.
pub struct QuickPaste {
    phase: QuickPhase,
}

impl View for QuickPaste {
    type V = QuickPhase<Seq<char>>;

    closed spec fn view(&self) -> QuickPhase<Seq<char>> {
        self.phase@
    }
}

/// Begins the quick paste of `index`, unless it is under way already, in which case nothing
/// happens. The guard is to be given back when the quick paste is over.
pub fn quick_paste(lock: &mut QuickPasteLock, index: u32, database: bool) -> (r: (
    Option<QuickPasteLockGuard>,
    QuickPaste,
))
    ensures
        final(lock)@.no_duplicates(),
        if old(lock)@.contains(index) {
            &&& final(lock)@ == old(lock)@
            &&& r.0 is None
            &&& r.1@ == (QuickPhase::<Seq<char>>::Done { outcome: Ok(()) })
        } else {
            &&& final(lock)@ == old(lock)@.push(index)
            &&& r.0 matches Some(guard) && guard@ == index
            &&& r.1@ == if database {
                QuickPhase::LookUp { index }
            } else {
                QuickPhase::Done { outcome: Err(no_database()) }
            }
        },
{
    match lock.try_acquire(index) {
        None => (None, QuickPaste { phase: QuickPhase::Done { outcome: Ok(()) } }),
        Some(guard) => {
            let phase = if database {
                QuickPhase::LookUp { index }
            } else {
                QuickPhase::Done { outcome: Err("数据库插件未初始化".to_string()) }
            };
            (Some(guard), QuickPaste { phase })
        },
    }
}

impl QuickPaste {
    /// The action whose answer is waited for.
    pub fn action(&self) -> (r: PasteAction)
        ensures
            r@ == quick_action(self@),
    {
        match &self.phase {
            QuickPhase::LookUp { index } => PasteAction::LookUp { index: *index },
            QuickPhase::Write { args } => PasteAction::Write { args: args.copy() },
            QuickPhase::Paste => {
                let mut steps: Vec<PasteStep> = Vec::new();
                let mut i: usize = 0;
                while i < 10
                    invariant
                        i <= 10,
                        steps@ == Seq::new(i as nat, |k: int| PasteStep::Sleep(20)),
                    decreases 10 - i,
                {
                    steps.push(PasteStep::Sleep(20));
                    i = i + 1;
                    assert(steps@ =~= Seq::new(i as nat, |k: int| PasteStep::Sleep(20)));
                }
                steps.push(PasteStep::Paste);
                assert(steps@ =~= quick_steps());
                PasteAction::Perform { steps }
            },
            QuickPhase::Done { outcome } => PasteAction::Finish { outcome: copy_outcome(outcome) },
        }
    }

    /// Takes the answer to the pending action in.
    pub fn step(self, event: PasteEvent) -> (r: Self)
        ensures
            r@ == quick_next(self@, event@),
            event matches PasteEvent::Queried { answer: QueryOutcome::Found { items } } ==> (self@
                is LookUp && items@.len() > 0 ==> (r@ matches QuickPhase::Write { args }
                && args.item_type == match items@[0].item_type {
                Some(t) => t@,
                None => "text"@,
            } && args.subtype == text::text_of(items@[0].subtype) && args.value
                == text::text_or_empty(text::text_of(items@[0].value)) && args.search
                == text::text_or_empty(text::text_of(items@[0].search)) && !args.plain)),
    {
        let phase = match (self.phase, event) {
            (QuickPhase::LookUp { .. }, PasteEvent::Queried { answer }) => match answer {
                QueryOutcome::Failed { error } => QuickPhase::Done { outcome: Err(error) },
                QueryOutcome::Refused { error } => QuickPhase::Done {
                    outcome: Err(glue("查询数据库失败: ", error.as_str())),
                },
                QueryOutcome::Found { items } => {
                    if items.len() == 0 {
                        QuickPhase::Done { outcome: Ok(()) }
                    } else {
                        QuickPhase::Write { args: make_own_args(&items[0]) }
                    }
                },
            },
            (QuickPhase::Write { .. }, PasteEvent::Written { outcome }) => match outcome {
                Ok(_) => QuickPhase::Paste,
                Err(error) => QuickPhase::Done { outcome: Err(error) },
            },
            (QuickPhase::Paste, PasteEvent::Performed { outcome }) => QuickPhase::Done { outcome },
            (phase, _) => phase,
        };
        QuickPaste { phase }
    }
}

/// Where the paste of one record stands.
pub enum SinglePhase<T = String> {
    Query { id: T, plain: bool },
    /// Are formatted records pasted as plain text?
    AskPlain { item: HistoryItem<T> },
    /// Write this, of a record with this type and value.
    Write { args: WriteArgs<T>, item_type: T, value: T },
    /// How large is the file that the value names?
    Measure { item_type: T, value: T },
    /// Wait, and paste.
    Paste { delay: u64 },
    Done { outcome: Result<(), T> },
}

impl View for SinglePhase {
    type V = SinglePhase<Seq<char>>;

    open spec fn view(&self) -> SinglePhase<Seq<char>> {
        match *self {
            SinglePhase::Query { id, plain } => SinglePhase::Query { id: id@, plain },
            SinglePhase::AskPlain { item } => SinglePhase::AskPlain { item: item@ },
            SinglePhase::Write { args, item_type, value } => SinglePhase::Write {
                args: args@,
                item_type: item_type@,
                value: value@,
            },
            SinglePhase::Measure { item_type, value } => SinglePhase::Measure {
                item_type: item_type@,
                value: value@,
            },
            SinglePhase::Paste { delay } => SinglePhase::Paste { delay },
            SinglePhase::Done { outcome } => SinglePhase::Done { outcome: outcome_of(outcome) },
        }
    }
}

/// The record is written next, plainly or as it is.
pub open spec fn single_write(item: ItemView, plain: bool) -> SinglePhase<Seq<char>> {
    SinglePhase::Write {
        args: if plain {
            plain_args(text::text_or_empty(item.search))
        } else {
            own_args(item)
        },
        item_type: type_of(item),
        value: text::text_or_empty(item.value),
    }
}

/// The wait before the paste of a record with this type and value, by the size of the file that
/// the value names, if there is one.
pub open spec fn single_wait(
    item_type: Seq<char>,
    value: Seq<char>,
    size: Option<u64>,
) -> SinglePhase<Seq<char>> {
    SinglePhase::Paste {
        delay: delays::write_delay(item_type, delays::content_size(item_type, value, size)),
    }
}

/// The phase of the paste of one record after an answer. An answer to another action than the
/// pending one changes nothing.
pub open spec fn single_next(phase: SinglePhase<Seq<char>>, event: PasteEventView) -> SinglePhase<
    Seq<char>,
> {
    match (phase, event) {
        (SinglePhase::Query { plain, .. }, PasteEvent::Queried { answer }) => match answer {
            QueryOutcome::Failed { error } => SinglePhase::Done { outcome: Err(error) },
            QueryOutcome::Refused { error } => SinglePhase::Done { outcome: Err(refusal(error)) },
            QueryOutcome::Found { items } => if items.len() == 0 {
                SinglePhase::Done { outcome: Ok(()) }
            } else if !plain && type_of(items.last()) == "formatted"@ {
                SinglePhase::AskPlain { item: items.last() }
            } else {
                single_write(items.last(), plain)
            },
        },
        (SinglePhase::AskPlain { item }, PasteEvent::PastePlain { enabled }) => single_write(
            item,
            enabled,
        ),
        (
            SinglePhase::Write { item_type, value, .. },
            PasteEvent::Written { outcome },
        ) => match outcome {
            Ok(_) => if delays::in_file(item_type, value) {
                SinglePhase::Measure { item_type, value }
            } else {
                single_wait(item_type, value, None)
            },
            Err(error) => SinglePhase::Done { outcome: Err(error) },
        },
        (SinglePhase::Measure { item_type, value }, PasteEvent::Measured { size }) => single_wait(
            item_type,
            value,
            size,
        ),
        (SinglePhase::Paste { .. }, PasteEvent::Performed { outcome }) => SinglePhase::Done {
            outcome,
        },
        _ => phase,
    }
}

/// The action whose answer the paste of one record waits for.
pub open spec fn single_action(phase: SinglePhase<Seq<char>>) -> PasteActionView {
    match phase {
        SinglePhase::Query { id, .. } => PasteAction::Query { options: query_by_id(id) },
        SinglePhase::AskPlain { .. } => PasteAction::AskPastePlain,
        SinglePhase::Write { args, .. } => PasteAction::Write { args },
        SinglePhase::Measure { value, .. } => PasteAction::MeasureFile { path: value },
        SinglePhase::Paste { delay } => PasteAction::Perform {
            steps: seq![PasteStep::Sleep(delay), PasteStep::PasteWithFocus],
        },
        SinglePhase::Done { outcome } => PasteAction::Finish { outcome },
    }
}

/// The paste of one record, or of one colour, into the window that had the focus last.
pub struct SinglePaste {
    phase: SinglePhase,
}

impl View for SinglePaste {
    type V = SinglePhase<Seq<char>>;

    closed spec fn view(&self) -> SinglePhase<Seq<char>> {
        self.phase@
    }
}

/// Begins the paste of the record with this identifier, as plain text or as it is.
pub fn single_paste(id: String, plain: bool, database: bool) -> (r: SinglePaste)
    ensures
        r@ == if database {
            SinglePhase::Query { id: id@, plain }
        } else {
            SinglePhase::Done { outcome: Err(no_database()) }
        },
{
    if database {
        SinglePaste { phase: SinglePhase::Query { id, plain } }
    } else {
        SinglePaste {
            phase: SinglePhase::Done { outcome: Err("数据库插件未初始化".to_string()) },
        }
    }
}

/// Begins the paste of a colour, as plain text.
pub fn paste_color(color_value: String) -> (r: SinglePaste)
    ensures
        r@ == (SinglePhase::Write {
            args: plain_args(color_value@),
            item_type: "text"@,
            value: color_value@,
        }),
{
    SinglePaste {
        phase: SinglePhase::Write {
            args: make_plain_args(color_value.as_str()),
            item_type: "text".to_string(),
            value: color_value,
        },
    }
}

fn make_single_write(item: &HistoryItem, plain: bool) -> (r: SinglePhase)
    ensures
        r@ == single_write(item@, plain),
{
    let args = if plain {
        let search = text_or_new(&item.search);
        make_plain_args(search.as_str())
    } else {
        make_own_args(item)
    };
    SinglePhase::Write { args, item_type: make_type(item), value: text_or_new(&item.value) }
}

fn make_single_wait(item_type: &str, value: &str, size: Option<u64>) -> (r: SinglePhase)
    ensures
        r@ == single_wait(item_type@, value@, size),
{
    let content_size = get_content_size(item_type, value, size);
    SinglePhase::Paste { delay: get_write_delay_ms(item_type, content_size) }
}

impl SinglePaste {
    /// The action whose answer is waited for.
    pub fn action(&self) -> (r: PasteAction)
        ensures
            r@ == single_action(self@),
    {
        match &self.phase {
            SinglePhase::Query { id, .. } => PasteAction::Query {
                options: make_query_by_id(id.as_str()),
            },
            SinglePhase::AskPlain { .. } => PasteAction::AskPastePlain,
            SinglePhase::Write { args, .. } => PasteAction::Write { args: args.copy() },
            SinglePhase::Measure { value, .. } => PasteAction::MeasureFile { path: value.clone() },
            SinglePhase::Paste { delay } => {
                let mut steps: Vec<PasteStep> = Vec::new();
                steps.push(PasteStep::Sleep(*delay));
                steps.push(PasteStep::PasteWithFocus);
                assert(steps@ =~= seq![PasteStep::Sleep(*delay), PasteStep::PasteWithFocus]);
                PasteAction::Perform { steps }
            },
            SinglePhase::Done { outcome } => PasteAction::Finish { outcome: copy_outcome(outcome) },
        }
    }

    /// Takes the answer to the pending action in.
    pub fn step(self, event: PasteEvent) -> (r: Self)
        ensures
            r@ == single_next(self@, event@),
    {
        let phase = match (self.phase, event) {
            (SinglePhase::Query { plain, .. }, PasteEvent::Queried { answer }) => match answer {
                QueryOutcome::Failed { error } => SinglePhase::Done { outcome: Err(error) },
                QueryOutcome::Refused { error } => SinglePhase::Done {
                    outcome: Err(glue("查询数据库失败: ", error.as_str())),
                },
                QueryOutcome::Found { items } => {
                    let mut items = items;
                    match items.pop() {
                        None => SinglePhase::Done { outcome: Ok(()) },
                        Some(item) => {
                            let item_type = make_type(&item);
                            if !plain && same(item_type.as_str(), "formatted") {
                                SinglePhase::AskPlain { item }
                            } else {
                                make_single_write(&item, plain)
                            }
                        },
                    }
                },
            },
            (SinglePhase::AskPlain { item }, PasteEvent::PastePlain { enabled }) => {
                make_single_write(&item, enabled)
            },
            (
                SinglePhase::Write { item_type, value, .. },
                PasteEvent::Written { outcome },
            ) => match outcome {
                Ok(_) => {
                    if wants_file_size(item_type.as_str(), value.as_str()) {
                        SinglePhase::Measure { item_type, value }
                    } else {
                        make_single_wait(item_type.as_str(), value.as_str(), None)
                    }
                },
                Err(error) => SinglePhase::Done { outcome: Err(error) },
            },
            (SinglePhase::Measure { item_type, value }, PasteEvent::Measured { size }) => {
                make_single_wait(item_type.as_str(), value.as_str(), size)
            },
            (SinglePhase::Paste { .. }, PasteEvent::Performed { outcome }) => SinglePhase::Done {
                outcome,
            },
            (phase, _) => phase,
        };
        SinglePaste { phase }
    }
}

/// How many actions a quick paste has before it, at most.
pub open spec fn quick_remaining(phase: QuickPhase<Seq<char>>) -> nat {
    match phase {
        QuickPhase::LookUp { .. } => 3,
        QuickPhase::Write { .. } => 2,
        QuickPhase::Paste => 1,
        QuickPhase::Done { .. } => 0,
    }
}

/// How many actions the paste of one record has before it, at most.
pub open spec fn single_remaining(phase: SinglePhase<Seq<char>>) -> nat {
    match phase {
        SinglePhase::Query { .. } => 5,
        SinglePhase::AskPlain { .. } => 4,
        SinglePhase::Write { .. } => 3,
        SinglePhase::Measure { .. } => 2,
        SinglePhase::Paste { .. } => 1,
        SinglePhase::Done { .. } => 0,
    }
}

/// An answer brings a quick paste and the paste of one record closer to their end, or leaves them
/// where they are.
pub proof fn law_pastes_only_move_on(
    quick: QuickPhase<Seq<char>>,
    single: SinglePhase<Seq<char>>,
    event: PasteEventView,
)
    ensures
        quick_next(quick, event) == quick || quick_remaining(quick_next(quick, event))
            < quick_remaining(quick),
        single_next(single, event) == single || single_remaining(single_next(single, event))
            < single_remaining(single),
{
}

/// A write that fails is told to the caller, and no keystroke follows it.
pub proof fn law_failed_write_pastes_nothing(
    args: WriteArgs<Seq<char>>,
    item_type: Seq<char>,
    value: Seq<char>,
    error: Seq<char>,
)
    ensures
        quick_action(
            quick_next(QuickPhase::Write { args }, PasteEvent::Written { outcome: Err(error) }),
        ) == (PasteActionView::Finish { outcome: Err(error) }),
        single_action(
            single_next(
                SinglePhase::Write { args, item_type, value },
                PasteEvent::Written { outcome: Err(error) },
            ),
        ) == (PasteActionView::Finish { outcome: Err(error) }),
{
}

/// A record that is not in the history is not pasted, and that is no error.
pub proof fn law_missing_record_is_no_error(index: u32, id: Seq<char>, plain: bool)
    ensures
        quick_next(
            QuickPhase::LookUp { index },
            PasteEvent::Queried { answer: QueryOutcome::Found { items: Seq::empty() } },
        ) == (QuickPhase::<Seq<char>>::Done { outcome: Ok(()) }),
        single_next(
            SinglePhase::Query { id, plain },
            PasteEvent::Queried { answer: QueryOutcome::Found { items: Seq::empty() } },
        ) == (SinglePhase::<Seq<char>>::Done { outcome: Ok(()) }),
{
}

/// Places in the history count from one: the record at place `index` is the one behind
/// `index - 1` others.
pub proof fn law_places_count_from_one(index: u32)
    requires
        1 <= index <= 0x8000_0000,
    ensures
        query_by_index(index).offset == Some((index - 1) as i32),
{
}

/// A paste as plain text writes the searchable text of the record, as plain text only, whatever
/// the type of the record.
pub proof fn law_plain_paste_writes_plain_text(id: Seq<char>, items: Seq<ItemView>)
    requires
        items.len() > 0,
    ensures
        single_next(
            SinglePhase::Query { id, plain: true },
            PasteEvent::Queried { answer: QueryOutcome::Found { items } },
        ) matches SinglePhase::Write { args, .. } && writing::planned_write(
            args.item_type,
            args.subtype,
            args.value,
            args.search,
            args.plain,
        ) == (writing::ClipboardWrite::Text { text: text::text_or_empty(items.last().search) }),
{
    writing::law_plain_write_is_plain_text(text::text_or_empty(items.last().search));
}

/// The paste of a colour writes the colour as plain text and waits as long as for a text of its
/// length.
pub proof fn law_color_is_pasted_as_text(color: Seq<char>)
    ensures
        ({
            let args = plain_args(color);
            &&& writing::planned_write(
                args.item_type,
                args.subtype,
                args.value,
                args.search,
                args.plain,
            ) == (writing::ClipboardWrite::Text { text: color })
            &&& single_next(
                SinglePhase::Write { args, item_type: "text"@, value: color },
                PasteEvent::Written { outcome: Ok(()) },
            ) == (SinglePhase::<Seq<char>>::Paste {
                delay: delays::write_delay("text"@, text::byte_len(color) as int),
            })
        }),
{
    writing::law_plain_write_is_plain_text(color);
    reveal_strlit("text");
    reveal_strlit("image");
    reveal_strlit("files");
    assert("text"@.len() != "image"@.len());
    assert("text"@.len() != "files"@.len());
}

/// The clipboard shows what a write put there: an image, or a text that is not empty.
pub open spec fn shows(
    write: writing::ClipboardWrite,
    shown: Option<Seq<char>>,
    has_image: bool,
) -> bool {
    match write {
        writing::ClipboardWrite::Nothing => false,
        writing::ClipboardWrite::Image { .. } => has_image,
        writing::ClipboardWrite::Rtf { text, .. } => shown == Some(text) && text.len() > 0,
        writing::ClipboardWrite::Html { text, .. } => shown == Some(text) && text.len() > 0,
        writing::ClipboardWrite::Text { text } => shown == Some(text) && text.len() > 0,
    }
}

/// What a paste writes to the clipboard does not come back into the history: the change that shows
/// it within the time window is not looked at any further.
pub proof fn law_pasted_record_is_not_recorded(
    args: WriteArgs<Seq<char>>,
    before: ManagerState,
    after: ManagerState,
    shown: Option<Seq<char>>,
    has_image: bool,
    has_files: bool,
    files: Option<Seq<Seq<char>>>,
    now: i64,
)
    requires
        ({
            let write = writing::planned_write(
                args.item_type,
                args.subtype,
                args.value,
                args.search,
                args.plain,
            );
            &&& writing::write_fingerprint(write) matches Some(fingerprint) && manager::recorded(
                before,
                after,
                fingerprint,
            )
            &&& shows(write, shown, has_image)
        }),
        0 <= now,
        now - after.write_time <= manager::OWN_WRITE_WINDOW_MS,
    ensures
        listener::next(
            ChangePhase::Snapshot,
            after,
            ChangeEvent::Snapshot { text: shown, has_image, has_files, files },
            now,
        ) == listener::PhaseView::Done,
{
    let write = writing::planned_write(
        args.item_type,
        args.subtype,
        args.value,
        args.search,
        args.plain,
    );
    let list = listener::list_or_empty(files);
    match write {
        writing::ClipboardWrite::Nothing => {},
        writing::ClipboardWrite::Image { path } => {
            manager::law_image_write_is_recognised(
                before,
                after,
                path,
                now as u64,
                text::text_or_empty(shown),
                has_files,
                list,
            );
        },
        writing::ClipboardWrite::Rtf { text, .. } => {
            manager::law_text_write_is_recognised(
                before,
                after,
                "rtf:"@,
                text,
                now as u64,
                has_image,
                has_files,
                list,
            );
        },
        writing::ClipboardWrite::Html { text, .. } => {
            manager::law_text_write_is_recognised(
                before,
                after,
                "html:"@,
                text,
                now as u64,
                has_image,
                has_files,
                list,
            );
        },
        writing::ClipboardWrite::Text { text } => {
            manager::law_text_write_is_recognised(
                before,
                after,
                "text:"@,
                text,
                now as u64,
                has_image,
                has_files,
                list,
            );
        },
    }
}

} // verus!
