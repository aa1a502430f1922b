//! The paste of several records, one below the other.

use vstd::prelude::*;
use crate::delays;
use crate::delays::{get_content_size, get_paste_delay_ms, get_write_delay_ms, wants_file_size};
use crate::item::HistoryItem;
use crate::listener;
use crate::listener::{ChangeEvent, ChangePhase};
use crate::manager::ManagerState;
use crate::paste;
use crate::paste::{
    copy_outcome, make_own_args, make_plain_args, make_query_by_id, make_type, text_or_new,
    ItemView, PasteAction, PasteActionView, PasteEvent, PasteEventView, PasteStep,
    QueryOptions, WriteArgs,
};
use crate::text;
use crate::text::len_of;

verus! {

/// Where the paste of several records stands. `queue` holds the records that are still to be
/// pasted, the next one first.
pub enum BatchPhase<T = String, L = Vec<String>, I = Vec<HistoryItem>> {
    /// Find the records with these identifiers.
    Query { ids: L },
    /// Write a line break.
    NewlineWrite { queue: I },
    /// Paste the line break.
    NewlinePaste { queue: I },
    /// How large is the file that the value of the next record names?
    Measure { queue: I },
    /// Write the next record, whose content has this size.
    Write { queue: I, size: usize },
    /// Paste the next record, whose content has this size.
    Paste { queue: I, size: usize },
    Done { outcome: Result<(), T> },
}

/// A `BatchPhase` with its texts as sequences of characters.
pub type BatchPhaseView = BatchPhase<Seq<char>, Seq<Seq<char>>, Seq<ItemView>>;

impl View for BatchPhase {
    type V = BatchPhaseView;

    open spec fn view(&self) -> BatchPhaseView {
        match *self {
            BatchPhase::Query { ids } => BatchPhase::Query { ids: text::texts(ids@) },
            BatchPhase::NewlineWrite { queue } => BatchPhase::NewlineWrite {
                queue: paste::items_of(queue@),
            },
            BatchPhase::NewlinePaste { queue } => BatchPhase::NewlinePaste {
                queue: paste::items_of(queue@),
            },
            BatchPhase::Measure { queue } => BatchPhase::Measure {
                queue: paste::items_of(queue@),
            },
            BatchPhase::Write { queue, size } => BatchPhase::Write {
                queue: paste::items_of(queue@),
                size,
            },
            BatchPhase::Paste { queue, size } => BatchPhase::Paste {
                queue: paste::items_of(queue@),
                size,
            },
            BatchPhase::Done { outcome } => BatchPhase::Done {
                outcome: paste::outcome_of(outcome),
            },
        }
    }
}

/// How several records are pasted.
#[derive(Clone, Copy, Debug, PartialEq, Eq, Structural)]
pub struct BatchSettings {
    /// As plain text.
    pub plain: bool,
    /// Without the first of the records that were found.
    pub skip_first: bool,
    /// With a line break before the first of them.
    pub prepend_newline: bool,
}

/// The last record of each list that was found, in order.
pub open spec fn found_items(found: Seq<Option<Seq<ItemView>>>) -> Seq<ItemView>
    decreases found.len(),
{
    if found.len() == 0 {
        Seq::empty()
    } else {
        let before = found_items(found.drop_last());
        match found.last() {
            Some(items) if items.len() > 0 => before.push(items.last()),
            _ => before,
        }
    }
}

/// The records that are pasted of those that were found.
pub open spec fn wanted(settings: BatchSettings, items: Seq<ItemView>) -> Seq<ItemView> {
    if settings.skip_first {
        items.skip(1)
    } else {
        items
    }
}

/// How the next record is written.
pub open spec fn batch_args(settings: BatchSettings, item: ItemView) -> WriteArgs<Seq<char>> {
    if settings.plain {
        paste::plain_args(text::text_or_empty(item.search))
    } else {
        paste::own_args(item)
    }
}

/// The size of the content of a record that is pasted as it is is that of a file.
pub open spec fn batch_measures(settings: BatchSettings, item: ItemView) -> bool {
    !settings.plain && delays::in_file(paste::type_of(item), text::text_or_empty(item.value))
}

/// The size by which a record waits: that of its searchable text where it is pasted as plain
/// text, and else that of its content.
pub open spec fn batch_size(settings: BatchSettings, item: ItemView, file_size: Option<u64>) -> int {
    if settings.plain {
        text::byte_len(text::text_or_empty(item.search)) as int
    } else {
        delays::content_size(
            paste::type_of(item),
            text::text_or_empty(item.value),
            file_size,
        )
    }
}

/// The steps that paste a line break.
pub open spec fn newline_steps() -> Seq<PasteStep> {
    seq![
        PasteStep::Sleep(delays::write_delay("text"@, 1)),
        PasteStep::PasteWithFocus,
        PasteStep::Sleep(delays::paste_delay("text"@, 1)),
    ]
}

/// The steps that paste a record of this type and size, and go to a new line unless it is the
/// last one.
pub open spec fn item_steps(item_type: Seq<char>, size: int, last: bool) -> Seq<PasteStep> {
    seq![
        PasteStep::Sleep(delays::write_delay(item_type, size)),
        PasteStep::PasteWithFocus,
        PasteStep::Sleep(delays::paste_delay(item_type, size)),
    ] + if last {
        Seq::empty()
    } else {
        seq![
            PasteStep::PressEnter,
            PasteStep::Sleep(10),
            PasteStep::Sleep(delays::write_delay("text"@, 1)),
        ]
    }
}

/// The turn of the next record of a queue, or the end.
pub open spec fn turn(settings: BatchSettings, queue: Seq<ItemView>) -> BatchPhaseView {
    if queue.len() == 0 {
        BatchPhase::Done { outcome: Ok(()) }
    } else if batch_measures(settings, queue[0]) {
        BatchPhase::Measure { queue }
    } else {
        BatchPhase::Write { queue, size: batch_size(settings, queue[0], None) as usize }
    }
}

/// The phase once these records have been found.
pub open spec fn batch_start(settings: BatchSettings, items: Seq<ItemView>) -> BatchPhaseView {
    let queue = wanted(settings, items);
    if items.len() == 0 {
        BatchPhase::Done { outcome: Ok(()) }
    } else if settings.prepend_newline {
        BatchPhase::NewlineWrite { queue }
    } else {
        turn(settings, queue)
    }
}

/// The phase of the paste of several records after an answer. A record that cannot be written is
/// passed over. An answer to another action than the pending one changes nothing.
pub open spec fn batch_next(
    settings: BatchSettings,
    phase: BatchPhaseView,
    event: PasteEventView,
) -> BatchPhaseView {
    match (phase, event) {
        (BatchPhase::Query { .. }, PasteEvent::QueriedEach { answers }) => match answers {
            Ok(found) => batch_start(settings, found_items(found)),
            Err(error) => BatchPhase::Done { outcome: Err(error) },
        },
        (BatchPhase::NewlineWrite { queue }, PasteEvent::Written { outcome }) => match outcome {
            Ok(_) => BatchPhase::NewlinePaste { queue },
            Err(_) => turn(settings, queue),
        },
        (BatchPhase::NewlinePaste { queue }, PasteEvent::Performed { outcome }) => match outcome {
            Ok(_) => turn(settings, queue),
            Err(error) => BatchPhase::Done { outcome: Err(error) },
        },
        (BatchPhase::Measure { queue }, PasteEvent::Measured { size }) => BatchPhase::Write {
            queue,
            size: batch_size(settings, queue[0], size) as usize,
        },
        (BatchPhase::Write { queue, size }, PasteEvent::Written { outcome }) => match outcome {
            Ok(_) => BatchPhase::Paste { queue, size },
            Err(_) => turn(settings, queue.skip(1)),
        },
        (BatchPhase::Paste { queue, .. }, PasteEvent::Performed { outcome }) => match outcome {
            Ok(_) => turn(settings, queue.skip(1)),
            Err(error) => BatchPhase::Done { outcome: Err(error) },
        },
        _ => phase,
    }
}

/// The action whose answer the paste of several records waits for.
pub open spec fn batch_action(settings: BatchSettings, phase: BatchPhaseView) -> PasteActionView {
    match phase {
        BatchPhase::Query { ids } => PasteAction::QueryEach {
            queries: ids.map_values(|id: Seq<char>| paste::query_by_id(id)),
        },
        BatchPhase::NewlineWrite { .. } => PasteAction::Write { args: paste::plain_args("\n"@) },
        BatchPhase::NewlinePaste { .. } => PasteAction::Perform { steps: newline_steps() },
        BatchPhase::Measure { queue } => PasteAction::MeasureFile {
            path: text::text_or_empty(queue[0].value),
        },
        BatchPhase::Write { queue, .. } => PasteAction::Write {
            args: batch_args(settings, queue[0]),
        },
        BatchPhase::Paste { queue, size } => PasteAction::Perform {
            steps: item_steps(paste::type_of(queue[0]), size as int, queue.len() == 1),
        },
        BatchPhase::Done { outcome } => PasteAction::Finish { outcome },
    }
}

/// A phase that is about the next record has one.
pub open spec fn has_next(phase: BatchPhaseView) -> bool {
    match phase {
        BatchPhase::Measure { queue } => queue.len() > 0,
        BatchPhase::Write { queue, .. } => queue.len() > 0,
        BatchPhase::Paste { queue, .. } => queue.len() > 0,
        _ => true,
    }
}

/// What the paste of several records holds.
pub struct BatchState {
    pub settings: BatchSettings,
    pub phase: BatchPhaseView,
}

/// The paste of several records into the window that had the focus last.
pub struct BatchPaste {
    settings: BatchSettings,
    phase: BatchPhase,
}

impl View for BatchPaste {
    type V = BatchState;

    closed spec fn view(&self) -> BatchState {
        BatchState { settings: self.settings, phase: self.phase@ }
    }
}

/// A flag that may be missing; a missing one is not set.
pub open spec fn is_set(flag: Option<bool>) -> bool {
    flag == Some(true)
}

/// Begins the paste of the records with these identifiers. Without any nothing happens.
pub fn batch_paste(
    ids: Vec<String>,
    plain: bool,
    skip_first: Option<bool>,
    prepend_newline: Option<bool>,
    database: bool,
) -> (r: BatchPaste)
    ensures
        r@.settings == (BatchSettings {
            plain,
            skip_first: is_set(skip_first),
            prepend_newline: is_set(prepend_newline),
        }),
        r@.phase == if ids@.len() == 0 {
            BatchPhaseView::Done { outcome: Ok(()) }
        } else if !database {
            BatchPhaseView::Done { outcome: Err(paste::no_database()) }
        } else {
            BatchPhaseView::Query { ids: text::texts(ids@) }
        },
{
    let settings = BatchSettings {
        plain,
        skip_first: skip_first.unwrap_or(false),
        prepend_newline: prepend_newline.unwrap_or(false),
    };
    let phase = if ids.len() == 0 {
        BatchPhase::Done { outcome: Ok(()) }
    } else if !database {
        BatchPhase::Done { outcome: Err("数据库插件未初始化".to_string()) }
    } else {
        BatchPhase::Query { ids }
    };
    BatchPaste { settings, phase }
}

fn collect_found(found: &Vec<Option<Vec<HistoryItem>>>) -> (r: Vec<HistoryItem>)
    ensures
        paste::items_of(r@) == found_items(paste::found_of(found@)),
{
    let mut items: Vec<HistoryItem> = Vec::new();
    let ghost all = paste::found_of(found@);
    let mut i: usize = 0;
    assert(paste::items_of(items@) =~= Seq::<ItemView>::empty());
    while i < found.len()
        invariant
            i <= found@.len(),
            all == paste::found_of(found@),
            paste::items_of(items@) == found_items(all.take(i as int)),
        decreases found@.len() - i,
    {
        let ghost before = items@;
        assert(all.take(i + 1).drop_last() =~= all.take(i as int));
        match &found[i] {
            Some(list) => {
                if list.len() > 0 {
                    let item = list[list.len() - 1].copy();
                    let ghost added = item@;
                    items.push(item);
                    assert(paste::items_of(items@) =~= paste::items_of(before).push(added));
                }
            },
            None => {},
        }
        i = i + 1;
    }
    assert(all.take(i as int) =~= all);
    items
}

fn drop_next(queue: Vec<HistoryItem>) -> (r: Vec<HistoryItem>)
    requires
        queue@.len() > 0,
    ensures
        paste::items_of(r@) == paste::items_of(queue@).skip(1),
{
    let mut rest = queue;
    let _first = rest.remove(0);
    assert(paste::items_of(rest@) =~= paste::items_of(queue@).skip(1));
    rest
}

fn size_of(settings: BatchSettings, item: &HistoryItem, file_size: Option<u64>) -> (r: usize)
    ensures
        r == batch_size(settings, item@, file_size),
{
    if settings.plain {
        let search = text_or_new(&item.search);
        len_of(search.as_str())
    } else {
        let item_type = make_type(item);
        let value = text_or_new(&item.value);
        get_content_size(item_type.as_str(), value.as_str(), file_size)
    }
}

fn take_turn(settings: BatchSettings, queue: Vec<HistoryItem>) -> (r: BatchPhase)
    ensures
        r@ == turn(settings, paste::items_of(queue@)),
        has_next(r@),
{
    if queue.len() == 0 {
        BatchPhase::Done { outcome: Ok(()) }
    } else {
        let item_type = make_type(&queue[0]);
        let value = text_or_new(&queue[0].value);
        if !settings.plain && wants_file_size(item_type.as_str(), value.as_str()) {
            BatchPhase::Measure { queue }
        } else {
            let size = size_of(settings, &queue[0], None);
            BatchPhase::Write { queue, size }
        }
    }
}

fn start(settings: BatchSettings, items: Vec<HistoryItem>) -> (r: BatchPhase)
    ensures
        r@ == batch_start(settings, paste::items_of(items@)),
        has_next(r@),
{
    if items.len() == 0 {
        BatchPhase::Done { outcome: Ok(()) }
    } else {
        let queue = if settings.skip_first {
            drop_next(items)
        } else {
            items
        };
        if settings.prepend_newline {
            BatchPhase::NewlineWrite { queue }
        } else {
            take_turn(settings, queue)
        }
    }
}

fn make_newline_steps() -> (r: Vec<PasteStep>)
    ensures
        r@ == newline_steps(),
{
    let mut steps: Vec<PasteStep> = Vec::new();
    steps.push(PasteStep::Sleep(get_write_delay_ms("text", 1)));
    steps.push(PasteStep::PasteWithFocus);
    steps.push(PasteStep::Sleep(get_paste_delay_ms("text", 1)));
    assert(steps@ =~= newline_steps());
    steps
}

fn make_item_steps(item_type: &str, size: usize, last: bool) -> (r: Vec<PasteStep>)
    ensures
        r@ == item_steps(item_type@, size as int, last),
{
    let mut steps: Vec<PasteStep> = Vec::new();
    steps.push(PasteStep::Sleep(get_write_delay_ms(item_type, size)));
    steps.push(PasteStep::PasteWithFocus);
    steps.push(PasteStep::Sleep(get_paste_delay_ms(item_type, size)));
    if !last {
        steps.push(PasteStep::PressEnter);
        steps.push(PasteStep::Sleep(10));
        steps.push(PasteStep::Sleep(get_write_delay_ms("text", 1)));
    }
    assert(steps@ =~= item_steps(item_type@, size as int, last));
    steps
}

fn make_queries(ids: &Vec<String>) -> (r: Vec<QueryOptions>)
    ensures
        r@.map_values(|q: QueryOptions| q@) == text::texts(ids@).map_values(
            |id: Seq<char>| paste::query_by_id(id),
        ),
{
    let mut queries: Vec<QueryOptions> = Vec::new();
    let mut i: usize = 0;
    while i < ids.len()
        invariant
            i <= ids@.len(),
            queries@.len() == i,
            forall|k: int|
                0 <= k < i ==> (#[trigger] queries@[k])@ == paste::query_by_id(ids@[k]@),
        decreases ids@.len() - i,
    {
        queries.push(make_query_by_id(ids[i].as_str()));
        i = i + 1;
    }
    assert(queries@.map_values(|q: QueryOptions| q@) =~= text::texts(ids@).map_values(
        |id: Seq<char>| paste::query_by_id(id),
    ));
    queries
}

impl BatchPaste {
    #[verifier::type_invariant]
    spec fn reachable(self) -> bool {
        has_next(self.phase@)
    }

    /// The action whose answer is waited for.
    pub fn action(&self) -> (r: PasteAction)
        ensures
            r@ == batch_action(self@.settings, self@.phase),
    {
        proof {
            use_type_invariant(self);
        }
        match &self.phase {
            BatchPhase::Query { ids } => PasteAction::QueryEach { queries: make_queries(ids) },
            BatchPhase::NewlineWrite { .. } => PasteAction::Write { args: make_plain_args("\n") },
            BatchPhase::NewlinePaste { .. } => PasteAction::Perform { steps: make_newline_steps() },
            BatchPhase::Measure { queue } => PasteAction::MeasureFile {
                path: text_or_new(&queue[0].value),
            },
            BatchPhase::Write { queue, .. } => {
                let args = if self.settings.plain {
                    let search = text_or_new(&queue[0].search);
                    make_plain_args(search.as_str())
                } else {
                    make_own_args(&queue[0])
                };
                PasteAction::Write { args }
            },
            BatchPhase::Paste { queue, size } => {
                let item_type = make_type(&queue[0]);
                let last = queue.len() == 1;
                PasteAction::Perform { steps: make_item_steps(item_type.as_str(), *size, last) }
            },
            BatchPhase::Done { outcome } => PasteAction::Finish { outcome: copy_outcome(outcome) },
        }
    }

    /// Takes the answer to the pending action in.
    pub fn step(self, event: PasteEvent) -> (r: Self)
        ensures
            r@.settings == self@.settings,
            r@.phase == batch_next(self@.settings, self@.phase, event@),
    {
        proof {
            use_type_invariant(&self);
        }
        let settings = self.settings;
        let phase = match (self.phase, event) {
            (BatchPhase::Query { .. }, PasteEvent::QueriedEach { answers }) => match answers {
                Ok(found) => start(settings, collect_found(&found)),
                Err(error) => BatchPhase::Done { outcome: Err(error) },
            },
            (BatchPhase::NewlineWrite { queue }, PasteEvent::Written { outcome }) => match outcome {
                Ok(_) => BatchPhase::NewlinePaste { queue },
                Err(_) => take_turn(settings, queue),
            },
            (
                BatchPhase::NewlinePaste { queue },
                PasteEvent::Performed { outcome },
            ) => match outcome {
                Ok(_) => take_turn(settings, queue),
                Err(error) => BatchPhase::Done { outcome: Err(error) },
            },
            (BatchPhase::Measure { queue }, PasteEvent::Measured { size }) => {
                let content_size = size_of(settings, &queue[0], size);
                BatchPhase::Write { queue, size: content_size }
            },
            (BatchPhase::Write { queue, size }, PasteEvent::Written { outcome }) => match outcome {
                Ok(_) => BatchPhase::Paste { queue, size },
                Err(_) => take_turn(settings, drop_next(queue)),
            },
            (BatchPhase::Paste { queue, .. }, PasteEvent::Performed { outcome }) => match outcome {
                Ok(_) => take_turn(settings, drop_next(queue)),
                Err(error) => BatchPhase::Done { outcome: Err(error) },
            },
            (phase, _) => phase,
        };
        BatchPaste { settings, phase }
    }
}

/// How everything that the paste of several records asks for turns out. What is asked about a
/// record is told by the queue that it is the first of.
pub struct BatchAnswers {
    /// What the questions to the history find.
    pub found: Result<Seq<Option<Seq<ItemView>>>, Seq<char>>,
    /// How the write of the line break goes, and its paste.
    pub newline_write: Result<(), Seq<char>>,
    pub newline_paste: Result<(), Seq<char>>,
    /// The size of the file that the value of a record names.
    pub size: spec_fn(Seq<ItemView>) -> Option<u64>,
    /// How the write of a record goes, and its paste.
    pub write: spec_fn(Seq<ItemView>) -> Result<(), Seq<char>>,
    pub paste: spec_fn(Seq<ItemView>) -> Result<(), Seq<char>>,
}

/// The answer to the action that a phase waits for.
pub open spec fn answer(answers: BatchAnswers, phase: BatchPhaseView) -> PasteEventView {
    match phase {
        BatchPhase::Query { .. } => PasteEvent::QueriedEach { answers: answers.found },
        BatchPhase::NewlineWrite { .. } => PasteEvent::Written { outcome: answers.newline_write },
        BatchPhase::NewlinePaste { .. } => PasteEvent::Performed { outcome: answers.newline_paste },
        BatchPhase::Measure { queue } => PasteEvent::Measured { size: (answers.size)(queue) },
        BatchPhase::Write { queue, .. } => PasteEvent::Written { outcome: (answers.write)(queue) },
        BatchPhase::Paste { queue, .. } => PasteEvent::Performed {
            outcome: (answers.paste)(queue),
        },
        BatchPhase::Done { .. } => PasteEvent::Performed { outcome: Ok(()) },
    }
}

/// How many actions a phase that has found its records has before it, at most.
pub open spec fn remaining(phase: BatchPhaseView) -> nat {
    match phase {
        BatchPhase::Query { .. } => 0,
        BatchPhase::NewlineWrite { queue } => 3 * queue.len() + 4,
        BatchPhase::NewlinePaste { queue } => 3 * queue.len() + 3,
        BatchPhase::Measure { queue } => 3 * queue.len() + 2,
        BatchPhase::Write { queue, .. } => 3 * queue.len() + 1,
        BatchPhase::Paste { queue, .. } => 3 * queue.len(),
        BatchPhase::Done { .. } => 0,
    }
}

/// The actions of the first `n` phases from this one on, under these answers; fewer where the
/// command is over before.
pub open spec fn actions_from(
    settings: BatchSettings,
    answers: BatchAnswers,
    phase: BatchPhaseView,
    n: nat,
) -> Seq<PasteActionView>
    decreases n,
{
    if n == 0 {
        Seq::empty()
    } else if phase is Done {
        seq![batch_action(settings, phase)]
    } else {
        seq![batch_action(settings, phase)] + actions_from(
            settings,
            answers,
            batch_next(settings, phase, answer(answers, phase)),
            (n - 1) as nat,
        )
    }
}

/// What is done about the records of a queue, the first one first: each is measured where its
/// size is that of a file, written, and pasted where the write went well; an error of the paste
/// ends the command.
pub open spec fn queue_actions(
    settings: BatchSettings,
    answers: BatchAnswers,
    queue: Seq<ItemView>,
) -> Seq<PasteActionView>
    decreases queue.len(),
{
    if queue.len() == 0 {
        seq![PasteAction::Finish { outcome: Ok(()) }]
    } else {
        let item = queue[0];
        let measured = batch_measures(settings, item);
        let size = batch_size(
            settings,
            item,
            if measured {
                (answers.size)(queue)
            } else {
                None
            },
        ) as usize;
        let measure: Seq<PasteActionView> = if measured {
            seq![PasteAction::MeasureFile { path: text::text_or_empty(item.value) }]
        } else {
            Seq::empty()
        };
        let write: Seq<PasteActionView> = seq![
            PasteAction::Write { args: batch_args(settings, item) },
        ];
        let steps: Seq<PasteActionView> = seq![
            PasteAction::Perform {
                steps: item_steps(paste::type_of(item), size as int, queue.len() == 1),
            },
        ];
        let rest = queue_actions(settings, answers, queue.skip(1));
        measure + write + match (answers.write)(queue) {
            Err(_) => rest,
            Ok(_) => match (answers.paste)(queue) {
                Ok(_) => steps + rest,
                Err(error) => steps.push(PasteAction::Finish { outcome: Err(error) }),
            },
        }
    }
}

/// The actions of the turn of a queue are those about its records, in order.
proof fn lemma_turn_actions(
    settings: BatchSettings,
    answers: BatchAnswers,
    queue: Seq<ItemView>,
    n: nat,
)
    requires
        n >= 3 * queue.len() + 1,
    ensures
        actions_from(settings, answers, turn(settings, queue), n) == queue_actions(
            settings,
            answers,
            queue,
        ),
    decreases queue.len(),
{
    let phase = turn(settings, queue);
    if queue.len() > 0 {
        let item = queue[0];
        let measured = batch_measures(settings, item);
        let size = batch_size(
            settings,
            item,
            if measured {
                (answers.size)(queue)
            } else {
                None
            },
        ) as usize;
        let write = BatchPhaseView::Write { queue, size };
        let paste = BatchPhaseView::Paste { queue, size };
        let rest = turn(settings, queue.skip(1));
        let m: nat = if measured {
            (n - 1) as nat
        } else {
            n
        };
        if measured {
            assert(actions_from(settings, answers, phase, n) == seq![
                batch_action(settings, phase),
            ] + actions_from(settings, answers, write, m));
        } else {
            assert(phase == write);
        }
        match (answers.write)(queue) {
            Err(_) => {
                lemma_turn_actions(settings, answers, queue.skip(1), (m - 1) as nat);
                assert(actions_from(settings, answers, write, m) == seq![
                    batch_action(settings, write),
                ] + actions_from(settings, answers, rest, (m - 1) as nat));
            },
            Ok(_) => {
                assert(actions_from(settings, answers, write, m) == seq![
                    batch_action(settings, write),
                ] + actions_from(settings, answers, paste, (m - 1) as nat));
                match (answers.paste)(queue) {
                    Ok(_) => {
                        lemma_turn_actions(settings, answers, queue.skip(1), (m - 2) as nat);
                        assert(actions_from(settings, answers, paste, (m - 1) as nat) == seq![
                            batch_action(settings, paste),
                        ] + actions_from(settings, answers, rest, (m - 2) as nat));
                    },
                    Err(error) => {
                        let over = BatchPhaseView::Done { outcome: Err(error) };
                        assert(actions_from(settings, answers, over, (m - 2) as nat) == seq![
                            batch_action(settings, over),
                        ]);
                        assert(actions_from(settings, answers, paste, (m - 1) as nat) == seq![
                            batch_action(settings, paste),
                        ] + actions_from(settings, answers, over, (m - 2) as nat));
                    },
                }
            },
        }
        assert(actions_from(settings, answers, phase, n) =~= queue_actions(
            settings,
            answers,
            queue,
        ));
    }
}

/// What is done about a line break, where one was asked for, and then about the records of a
/// queue. A line break that cannot be written keeps no record back.
pub open spec fn newline_actions(
    settings: BatchSettings,
    answers: BatchAnswers,
    queue: Seq<ItemView>,
) -> Seq<PasteActionView> {
    let records = queue_actions(settings, answers, queue);
    let write: Seq<PasteActionView> = seq![PasteAction::Write { args: paste::plain_args("\n"@) }];
    let steps: Seq<PasteActionView> = seq![PasteAction::Perform { steps: newline_steps() }];
    if !settings.prepend_newline {
        records
    } else if answers.newline_write is Err {
        write + records
    } else {
        match answers.newline_paste {
            Ok(_) => write + steps + records,
            Err(error) => (write + steps).push(PasteAction::Finish { outcome: Err(error) }),
        }
    }
}

/// All that the paste of several records does: it asks for them and, where any were found, deals
/// with the line break and with each of them.
pub open spec fn batch_actions(
    settings: BatchSettings,
    answers: BatchAnswers,
    ids: Seq<Seq<char>>,
) -> Seq<PasteActionView> {
    seq![batch_action(settings, BatchPhase::Query { ids })] + match answers.found {
        Err(error) => seq![PasteAction::Finish { outcome: Err(error) }],
        Ok(found) => if found_items(found).len() == 0 {
            seq![PasteAction::Finish { outcome: Ok(()) }]
        } else {
            newline_actions(settings, answers, wanted(settings, found_items(found)))
        },
    }
}

proof fn lemma_newline_actions(
    settings: BatchSettings,
    answers: BatchAnswers,
    queue: Seq<ItemView>,
    n: nat,
)
    requires
        settings.prepend_newline,
        n >= 3 * queue.len() + 3,
    ensures
        actions_from(settings, answers, BatchPhase::NewlineWrite { queue }, n) == newline_actions(
            settings,
            answers,
            queue,
        ),
{
    let write = BatchPhaseView::NewlineWrite { queue };
    let paste = BatchPhaseView::NewlinePaste { queue };
    match answers.newline_write {
        Err(_) => {
            lemma_turn_actions(settings, answers, queue, (n - 1) as nat);
        },
        Ok(_) => {
            let after = batch_next(settings, paste, answer(answers, paste));
            if answers.newline_paste is Ok {
                lemma_turn_actions(settings, answers, queue, (n - 2) as nat);
            } else {
                assert(actions_from(settings, answers, after, (n - 2) as nat) == seq![
                    batch_action(settings, after),
                ]);
            }
            assert(actions_from(settings, answers, paste, (n - 1) as nat) == seq![
                batch_action(settings, paste),
            ] + actions_from(settings, answers, after, (n - 2) as nat));
        },
    }
    assert(actions_from(settings, answers, write, n) =~= newline_actions(
        settings,
        answers,
        queue,
    ));
}

/// The paste of several records deals with each record that was found once and in the order of
/// the identifiers, without the first where that was asked for and behind a line break where that
/// was: whether or not a record can be written, the next one has its turn, and only a failing
/// keystroke ends the command early.
pub proof fn law_batch_deals_with_each_record_in_order(
    settings: BatchSettings,
    answers: BatchAnswers,
    ids: Seq<Seq<char>>,
    n: nat,
)
    requires
        n >= 2,
        answers.found matches Ok(found) ==> n >= 3 * found_items(found).len() + 4,
    ensures
        actions_from(settings, answers, BatchPhase::Query { ids }, n) == batch_actions(
            settings,
            answers,
            ids,
        ),
{
    let query = BatchPhaseView::Query { ids };
    let after = batch_next(settings, query, answer(answers, query));
    let m = (n - 1) as nat;
    match answers.found {
        Err(error) => {
            assert(actions_from(settings, answers, after, m) == seq![
                batch_action(settings, after),
            ]);
        },
        Ok(found) => {
            let items = found_items(found);
            if items.len() == 0 {
                assert(actions_from(settings, answers, after, m) == seq![
                    batch_action(settings, after),
                ]);
            } else if settings.prepend_newline {
                lemma_newline_actions(settings, answers, wanted(settings, items), m);
            } else {
                lemma_turn_actions(settings, answers, wanted(settings, items), m);
            }
        },
    }
}

/// Once the records have been found, every answer to the pending action brings the command closer
/// to its end.
pub proof fn law_batch_comes_to_an_end(
    settings: BatchSettings,
    answers: BatchAnswers,
    phase: BatchPhaseView,
)
    requires
        has_next(phase),
        !(phase is Query),
        !(phase is Done),
    ensures
        remaining(batch_next(settings, phase, answer(answers, phase))) < remaining(phase),
        has_next(batch_next(settings, phase, answer(answers, phase))),
{
}

/// The line break that the command pastes does not come into the history, even where the change
/// that it causes is looked at as one of another program.
pub proof fn law_pasted_newline_is_not_recorded(detector: bool, manager: ManagerState, now: i64)
    ensures
        listener::next(
            ChangePhase::PlainText { detector },
            manager,
            ChangeEvent::TextRead { text: Some("\n"@) },
            now,
        ) == listener::PhaseView::Done,
{
    reveal_strlit("\n");
}

} // verus!
