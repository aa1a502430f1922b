//! What a paste writes and presses, record by record.

use vstd::prelude::*;
use crate::batch;
use crate::batch::{BatchAnswers, BatchPhase, BatchPhaseView, BatchSettings};
use crate::delays;
use crate::item::HistoryItem;
use crate::manager::Platform;
use crate::paste;
use crate::paste::{
    ItemView, OptionsView, PasteAction, PasteActionView, PasteEvent, PasteEventView, PasteStep,
    QueryOptions, QueryOutcome, QuickPhase, SinglePhase, WriteArgs,
};
use crate::request::{ClipboardContent, RequestView};
use crate::text;
use crate::writing;

verus! {

/// What is written is the record as it is: its type, or text where it has none; its own subtype; its
/// value and its searchable text, empty where they are missing; and not plainly.
pub open spec fn as_it_is(args: WriteArgs<Seq<char>>, item: ItemView) -> bool {
    &&& item.item_type matches Some(t) ==> args.item_type == t
    &&& item.item_type is None ==> args.item_type == "text"@
    &&& args.subtype == item.subtype
    &&& item.value matches Some(v) ==> args.value == v
    &&& item.value is None ==> args.value.len() == 0
    &&& item.search matches Some(s) ==> args.search == s
    &&& item.search is None ==> args.search.len() == 0
    &&& !args.plain
}

/// What is written is this text, as a plain text without a subtype.
pub open spec fn plainly(args: WriteArgs<Seq<char>>, t: Seq<char>) -> bool {
    &&& args.item_type == "text"@
    &&& args.subtype is None
    &&& args.value == t
    &&& args.search == t
    &&& args.plain
}

/// What the clipboard is asked for by a write.
pub open spec fn request_for(platform: Platform, args: WriteArgs<Seq<char>>) -> Option<RequestView> {
    writing::write_request(
        platform,
        writing::planned_write(args.item_type, args.subtype, args.value, args.search, args.plain),
    )
}

/// A question was answered with these records.
pub open spec fn found(items: Seq<ItemView>) -> PasteEventView {
    PasteEvent::Queried { answer: QueryOutcome::Found { items } }
}

/// A quick paste asks for the first record that was found to be written as it is, whatever its
/// type.
pub proof fn law_quick_paste_writes_the_record_as_it_is(index: u32, items: Seq<ItemView>)
    requires
        items.len() > 0,
    ensures
        paste::quick_action(paste::quick_next(QuickPhase::LookUp { index }, found(items))) matches
            PasteAction::Write { args } && as_it_is(args, items[0]),
{
}

/// A quick paste looks its place up, waits ten times 20 milliseconds behind a write that went well,
/// pastes into the window that has the focus, and ends; it ends at once with an error of the
/// question or of the write.
pub proof fn law_quick_paste_in_order(
    index: u32,
    args: WriteArgs<Seq<char>>,
    error: Seq<char>,
    outcome: Result<(), Seq<char>>,
)
    ensures
        paste::quick_action(QuickPhase::LookUp { index }) == (PasteActionView::LookUp { index }),
        paste::quick_action(QuickPhase::Write { args }) == (PasteActionView::Write { args }),
        paste::quick_action(
            paste::quick_next(QuickPhase::Write { args }, PasteEvent::Written { outcome: Ok(()) }),
        ) matches PasteAction::Perform { steps } && steps.len() == 11 && steps[10]
            == PasteStep::Paste && forall|i: int|
            0 <= i < 10 ==> #[trigger] steps[i] == PasteStep::Sleep(20),
        paste::quick_next(QuickPhase::Paste, PasteEvent::Performed { outcome }) == (
        QuickPhase::<Seq<char>>::Done { outcome }),
        paste::quick_action(QuickPhase::Done { outcome }) == (PasteActionView::Finish { outcome }),
        paste::quick_next(
            QuickPhase::LookUp { index },
            PasteEvent::Queried { answer: QueryOutcome::Failed { error } },
        ) == (QuickPhase::<Seq<char>>::Done { outcome: Err(error) }),
        paste::quick_next(
            QuickPhase::LookUp { index },
            PasteEvent::Queried { answer: QueryOutcome::Refused { error } },
        ) == (QuickPhase::<Seq<char>>::Done { outcome: Err("查询数据库失败: "@ + error) }),
        paste::no_database() == "数据库插件未初始化"@,
{
}

/// The paste of one record as it is asks for the last record that was found to be written as it is;
/// a formatted one only once that was asked for and is not to be pasted plainly.
pub proof fn law_single_paste_writes_the_record_as_it_is(id: Seq<char>, items: Seq<ItemView>)
    requires
        items.len() > 0,
    ensures
        ({
            let item = items[items.len() - 1];
            let after = paste::single_next(SinglePhase::Query { id, plain: false }, found(items));
            if item.item_type == Some("formatted"@) {
                &&& paste::single_action(after) is AskPastePlain
                &&& paste::single_action(
                    paste::single_next(after, PasteEvent::PastePlain { enabled: false }),
                ) matches PasteAction::Write { args } && as_it_is(args, item)
            } else {
                paste::single_action(after) matches PasteAction::Write { args } && as_it_is(
                    args,
                    item,
                )
            }
        }),
{
    reveal_strlit("text");
    reveal_strlit("formatted");
    assert("text"@.len() != "formatted"@.len());
}

/// The paste of one record as plain text, by the command or by the settings for a formatted one,
/// asks for its searchable text to be written plainly.
pub proof fn law_single_plain_paste_writes_the_text(id: Seq<char>, items: Seq<ItemView>)
    requires
        items.len() > 0,
    ensures
        ({
            let item = items[items.len() - 1];
            let search = text::text_or_empty(item.search);
            &&& paste::single_action(
                paste::single_next(SinglePhase::Query { id, plain: true }, found(items)),
            ) matches PasteAction::Write { args } && plainly(args, search)
            &&& item.item_type == Some("formatted"@) ==> (paste::single_action(
                paste::single_next(
                    paste::single_next(SinglePhase::Query { id, plain: false }, found(items)),
                    PasteEvent::PastePlain { enabled: true },
                ),
            ) matches PasteAction::Write { args } && plainly(args, search))
        }),
{
}

/// Behind a write that went well, the paste of one record waits by the type and value of the record,
/// also where its plain text was written: a file is measured first. It then pastes into the window
/// that had the focus last.
pub proof fn law_single_paste_waits_by_the_record(
    id: Seq<char>,
    plain: bool,
    items: Seq<ItemView>,
    enabled: bool,
    size: Option<u64>,
)
    requires
        items.len() > 0,
    ensures
        ({
            let item = items[items.len() - 1];
            let item_type = match item.item_type {
                Some(t) => t,
                None => "text"@,
            };
            let value = text::text_or_empty(item.value);
            let asked = paste::single_next(SinglePhase::Query { id, plain }, found(items));
            let writing = if asked is AskPlain {
                paste::single_next(asked, PasteEvent::PastePlain { enabled })
            } else {
                asked
            };
            let written = paste::single_next(writing, PasteEvent::Written { outcome: Ok(()) });
            let in_file = (item_type == "image"@ || item_type == "files"@) && value.len() > 0;
            let ready = if in_file {
                paste::single_next(written, PasteEvent::Measured { size })
            } else {
                written
            };
            let delay = delays::write_delay(
                item_type,
                delays::content_size(item_type, value, size),
            );
            &&& in_file ==> paste::single_action(written) == (PasteActionView::MeasureFile {
                path: value,
            })
            &&& paste::single_action(ready) matches PasteAction::Perform { steps } && steps == seq![
                PasteStep::Sleep(delay),
                PasteStep::PasteWithFocus,
            ]
        }),
{
}

/// The paste of one record asks for it by its identifier and ends at once with an error of the
/// question or of the write, and in the end with the outcome of its steps.
pub proof fn law_single_paste_in_order(
    id: Seq<char>,
    plain: bool,
    delay: u64,
    error: Seq<char>,
    outcome: Result<(), Seq<char>>,
)
    ensures
        paste::single_action(SinglePhase::Query { id, plain }) matches PasteAction::Query { options }
            && asks_by_id(options, id),
        paste::single_next(
            SinglePhase::Query { id, plain },
            PasteEvent::Queried { answer: QueryOutcome::Failed { error } },
        ) == (SinglePhase::<Seq<char>>::Done { outcome: Err(error) }),
        paste::single_next(
            SinglePhase::Query { id, plain },
            PasteEvent::Queried { answer: QueryOutcome::Refused { error } },
        ) == (SinglePhase::<Seq<char>>::Done { outcome: Err("查询数据库失败: "@ + error) }),
        paste::single_next(SinglePhase::Paste { delay }, PasteEvent::Performed { outcome }) == (
        SinglePhase::<Seq<char>>::Done { outcome }),
        paste::single_action(SinglePhase::Done { outcome }) == (PasteActionView::Finish { outcome }),
{
}

/// A question for the record with this identifier, among all that are not deleted.
pub open spec fn asks_by_id(options: OptionsView, id: Seq<char>) -> bool {
    &&& !options.only_favorites && options.exclude_deleted
    &&& options.limit == Some(1i32) && options.offset is None && options.order_by is None
    &&& options.where_clause == Some("id = ?"@)
    &&& options.params == Some(seq![id])
}

/// The question of a quick paste is for one record, the latest first, behind as many as have a place
/// before it, among all that are not deleted.
pub proof fn law_quick_paste_query(index: u32)
    requires
        index >= 1,
    ensures
        ({
            let options = paste::query_by_index(index);
            &&& !options.only_favorites && options.exclude_deleted
            &&& options.limit == Some(1i32)
            &&& options.offset == Some(text::wrap_i32(index - 1) as i32)
            &&& options.order_by == Some("time DESC"@)
            &&& options.where_clause is None && options.params is None
        }),
{
}

/// A text that is to be written plainly, such as a colour, is written as it is.
pub proof fn law_plain_args(t: Seq<char>)
    ensures
        plainly(paste::plain_args(t), t),
{
}

/// A record that is pasted as it is, by whichever command, is asked for in the format of its own
/// type and subtype: a rich text with its value as rich text, a page with its value as page, an image
/// by its path, and anything else as its value.
pub proof fn law_pasted_record_keeps_its_format(
    platform: Platform,
    args: WriteArgs<Seq<char>>,
    item: ItemView,
)
    requires
        as_it_is(args, item),
    ensures
        item.item_type == Some("rtf"@) || (item.item_type == Some("formatted"@) && item.subtype
            == Some("rtf"@)) ==> (request_for(platform, args) matches Some(
            RequestView::SetContents(contents),
        ) && contents.len() > 0 && contents[0] == ClipboardContent::Rtf(
            text::text_or_empty(item.value),
        )),
        (item.item_type == Some("html"@) || (item.item_type == Some("formatted"@) && item.subtype
            != Some("rtf"@))) && text::text_or_empty(item.value).len() > 0 ==> (request_for(
            platform,
            args,
        ) matches Some(RequestView::SetContents(contents)) && contents.len() == 2 && contents[0]
            == ClipboardContent::Html(text::text_or_empty(item.value))),
        item.item_type == Some("image"@) && text::text_or_empty(item.value).len() > 0
            ==> request_for(platform, args) == Some(
            RequestView::SetImage(text::text_or_empty(item.value)),
        ),
        args.item_type != "image"@ && args.item_type != "formatted"@ && args.item_type != "html"@
            && args.item_type != "rtf"@ ==> request_for(platform, args) == Some(
            RequestView::SetContents(seq![ClipboardContent::Text(text::text_or_empty(item.value))]),
        ),
{
    writing::lemma_type_names();
    assert(args.value =~= text::text_or_empty(item.value));
    let (t, sub, v, s) = (args.item_type, args.subtype, args.value, args.search);
    if t == "rtf"@ || (t == "formatted"@ && sub == Some("rtf"@)) {
        writing::law_rich_item_is_asked_for_as_rich_text(t, sub, v, s, false);
        assert(platform == Platform::Other || platform == Platform::MacOs);
    } else if t == "html"@ || t == "formatted"@ {
        writing::law_page_item_is_asked_for_as_page(platform, t, sub, v, s, false);
    } else if t == "image"@ {
        writing::law_image_item_is_asked_for_by_path(platform, sub, v, s, false);
    } else {
        writing::law_text_item_is_asked_for_as_text(platform, t, sub, v, s);
    }
}

/// A rich text of the history comes back as a rich text from each of the commands that paste it as
/// it is: the quick paste, the paste of one record, and that of several.
pub proof fn law_rich_text_is_pasted_as_rich_text(
    platform: Platform,
    index: u32,
    id: Seq<char>,
    settings: BatchSettings,
    item: ItemView,
    size: usize,
)
    requires
        item.item_type == Some("formatted"@),
        item.subtype == Some("rtf"@),
        !settings.plain,
    ensures
        ({
            let rtf = ClipboardContent::Rtf(text::text_or_empty(item.value));
            let quick = paste::quick_action(
                paste::quick_next(QuickPhase::LookUp { index }, found(seq![item])),
            );
            let single = paste::single_action(
                paste::single_next(
                    paste::single_next(SinglePhase::Query { id, plain: false }, found(seq![item])),
                    PasteEvent::PastePlain { enabled: false },
                ),
            );
            let several = batch::batch_action(
                settings,
                BatchPhase::Write { queue: seq![item], size },
            );
            &&& quick matches PasteAction::Write { args } && (request_for(platform, args) matches
                Some(RequestView::SetContents(contents)) && contents.len() > 0 && contents[0]
                == rtf)
            &&& single matches PasteAction::Write { args } && (request_for(platform, args) matches
                Some(RequestView::SetContents(contents)) && contents.len() > 0 && contents[0]
                == rtf)
            &&& several matches PasteAction::Write { args } && (request_for(platform, args) matches
                Some(RequestView::SetContents(contents)) && contents.len() > 0 && contents[0]
                == rtf)
        }),
{
    law_quick_paste_writes_the_record_as_it_is(index, seq![item]);
    law_single_paste_writes_the_record_as_it_is(id, seq![item]);
    let args = batch::batch_args(settings, item);
    law_pasted_record_keeps_its_format(platform, args, item);
}

/// The writes among actions, in order.
pub open spec fn writes(actions: Seq<PasteActionView>) -> Seq<WriteArgs<Seq<char>>>
    decreases actions.len(),
{
    if actions.len() == 0 {
        Seq::empty()
    } else {
        let before = writes(actions.drop_last());
        match actions.last() {
            PasteAction::Write { args } => before.push(args),
            _ => before,
        }
    }
}

/// The steps to be taken among actions, in order.
pub open spec fn performs(actions: Seq<PasteActionView>) -> Seq<Seq<PasteStep>>
    decreases actions.len(),
{
    if actions.len() == 0 {
        Seq::empty()
    } else {
        let before = performs(actions.drop_last());
        match actions.last() {
            PasteAction::Perform { steps } => before.push(steps),
            _ => before,
        }
    }
}

proof fn lemma_of_both(a: Seq<PasteActionView>, b: Seq<PasteActionView>)
    ensures
        writes(a + b) == writes(a) + writes(b),
        performs(a + b) == performs(a) + performs(b),
    decreases b.len(),
{
    if b.len() == 0 {
        assert(a + b =~= a);
        assert(writes(a) + writes(b) =~= writes(a));
        assert(performs(a) + performs(b) =~= performs(a));
    } else {
        lemma_of_both(a, b.drop_last());
        assert((a + b).drop_last() =~= a + b.drop_last());
        assert(writes(a + b) =~= writes(a) + writes(b));
        assert(performs(a + b) =~= performs(a) + performs(b));
    }
}

proof fn lemma_of_one(action: PasteActionView)
    ensures
        action matches PasteAction::Write { args } ==> writes(seq![action]) == seq![args],
        !(action is Write) ==> writes(seq![action]) == Seq::<WriteArgs<Seq<char>>>::empty(),
        action matches PasteAction::Perform { steps } ==> performs(seq![action]) == seq![steps],
        !(action is Perform) ==> performs(seq![action]) == Seq::<Seq<PasteStep>>::empty(),
{
    let one = seq![action];
    assert(one.drop_last() =~= Seq::<PasteActionView>::empty());
    assert(writes(one.drop_last()) =~= Seq::<WriteArgs<Seq<char>>>::empty());
    assert(performs(one.drop_last()) =~= Seq::<Seq<PasteStep>>::empty());
    if let PasteAction::Write { args } = action {
        assert(writes(one) =~= seq![args]);
    }
    if let PasteAction::Perform { steps } = action {
        assert(performs(one) =~= seq![steps]);
    }
}

/// No paste of a record fails.
pub open spec fn pastes_succeed(answers: BatchAnswers) -> bool {
    forall|queue: Seq<ItemView>| (#[trigger] (answers.paste)(queue)) is Ok
}

/// No write of a record fails.
pub open spec fn writes_succeed(answers: BatchAnswers) -> bool {
    forall|queue: Seq<ItemView>| (#[trigger] (answers.write)(queue)) is Ok
}

/// The size by which a record waits: that of what is written, in a plain paste, and else that of its
/// content, by the size of its file where it has one.
pub open spec fn waiting_size(
    settings: BatchSettings,
    item: ItemView,
    file_size: Option<u64>,
) -> int {
    let item_type = match item.item_type {
        Some(t) => t,
        None => "text"@,
    };
    let size = if settings.plain {
        text::byte_len(text::text_or_empty(item.search)) as int
    } else {
        delays::content_size(item_type, text::text_or_empty(item.value), file_size)
    };
    (size as usize) as int
}

/// The steps that paste a record of this type and size: a wait, the paste into the window that had
/// the focus last, and a wait; and behind every record but the last the Enter key and two waits.
pub open spec fn pastes_record(
    steps: Seq<PasteStep>,
    item: ItemView,
    size: int,
    last: bool,
) -> bool {
    let item_type = match item.item_type {
        Some(t) => t,
        None => "text"@,
    };
    &&& steps.len() == if last {
        3int
    } else {
        6
    }
    &&& steps[0] == PasteStep::Sleep(delays::write_delay(item_type, size))
    &&& steps[1] == PasteStep::PasteWithFocus
    &&& steps[2] == PasteStep::Sleep(delays::paste_delay(item_type, size))
    &&& !last ==> steps[3] == PasteStep::PressEnter && steps[4] == PasteStep::Sleep(10) && steps[5]
        == PasteStep::Sleep(15)
}

/// What is written for a record: its searchable text, plainly, or the record as it is.
pub open spec fn writes_record(
    settings: BatchSettings,
    args: WriteArgs<Seq<char>>,
    item: ItemView,
) -> bool {
    if settings.plain {
        plainly(args, text::text_or_empty(item.search))
    } else {
        as_it_is(args, item)
    }
}

proof fn lemma_queue(settings: BatchSettings, answers: BatchAnswers, queue: Seq<ItemView>)
    requires
        pastes_succeed(answers),
    ensures
        ({
            let actions = batch::queue_actions(settings, answers, queue);
            &&& actions.len() > 0 && actions.last() == (PasteActionView::Finish { outcome: Ok(()) })
            &&& writes(actions).len() == queue.len()
            &&& forall|i: int|
                0 <= i < queue.len() ==> writes_record(
                    settings,
                    #[trigger] writes(actions)[i],
                    queue[i],
                )
            &&& writes_succeed(answers) ==> performs(actions).len() == queue.len() && forall|i: int|
                0 <= i < queue.len() ==> pastes_record(
                    #[trigger] performs(actions)[i],
                    queue[i],
                    waiting_size(settings, queue[i], (answers.size)(queue.skip(i))),
                    i == queue.len() - 1,
                )
        }),
    decreases queue.len(),
{
    let actions = batch::queue_actions(settings, answers, queue);
    if queue.len() == 0 {
        lemma_of_one(PasteAction::Finish { outcome: Ok(()) });
    } else {
        let item = queue[0];
        let tail = queue.skip(1);
        lemma_queue(settings, answers, tail);
        let rest = batch::queue_actions(settings, answers, tail);
        let measured = batch::batch_measures(settings, item);
        let asked_size = if measured {
            (answers.size)(queue)
        } else {
            None
        };
        let size = batch::batch_size(settings, item, asked_size) as usize;
        let measure: Seq<PasteActionView> = if measured {
            seq![PasteAction::MeasureFile { path: text::text_or_empty(item.value) }]
        } else {
            Seq::empty()
        };
        let write_action = PasteActionView::Write { args: batch::batch_args(settings, item) };
        let write = seq![write_action];
        let last = queue.len() == 1;
        let all_steps = batch::item_steps(paste::type_of(item), size as int, last);
        let perform = PasteActionView::Perform { steps: all_steps };
        let steps = seq![perform];
        let head = measure + write;
        lemma_of_one(write_action);
        lemma_of_one(perform);
        lemma_of_one(PasteAction::MeasureFile { path: text::text_or_empty(item.value) });
        lemma_of_both(measure, write);
        lemma_of_both(steps, rest);
        lemma_of_both(head, rest);
        lemma_of_both(head, steps + rest);
        assert((answers.paste)(queue) is Ok);
        assert(writes(head) =~= seq![batch::batch_args(settings, item)]);
        assert(performs(head) =~= Seq::<Seq<PasteStep>>::empty());
        if (answers.write)(queue) is Ok {
            assert(actions =~= head + (steps + rest));
            assert(writes(actions) =~= writes(head) + writes(rest));
            assert(performs(actions) =~= seq![all_steps] + performs(rest));
        } else {
            assert(actions =~= head + rest);
            assert(writes(actions) =~= writes(head) + writes(rest));
        }
        assert(queue.skip(0) =~= queue);
        lemma_text_delays();
        assert(pastes_record(
            all_steps,
            item,
            waiting_size(settings, item, (answers.size)(queue)),
            last,
        ));
        assert forall|i: int| 0 <= i < queue.len() implies writes_record(
            settings,
            #[trigger] writes(actions)[i],
            queue[i],
        ) by {
            if i > 0 {
                assert(writes(actions)[i] == writes(rest)[i - 1]);
                assert(queue[i] == tail[i - 1]);
            }
        }
        if writes_succeed(answers) {
            assert((answers.write)(queue) is Ok);
            assert forall|i: int| 0 <= i < queue.len() implies pastes_record(
                #[trigger] performs(actions)[i],
                queue[i],
                waiting_size(settings, queue[i], (answers.size)(queue.skip(i))),
                i == queue.len() - 1,
            ) by {
                if i > 0 {
                    assert(performs(actions)[i] == performs(rest)[i - 1]);
                    assert(queue[i] == tail[i - 1]);
                    assert(tail.skip(i - 1) =~= queue.skip(i));
                }
            }
        }
    }
}

/// A short text waits 15 milliseconds behind its write, and 20 behind its paste.
proof fn lemma_text_delays()
    ensures
        delays::write_delay("text"@, 1) == 15,
        delays::paste_delay("text"@, 1) == 20,
{
    delays::law_text_delays("text"@, 1);
}

/// The paste of several records writes exactly the records that were found, each once and in their
/// order: all of them, or all but the first where that was asked for; the searchable text of each in
/// a plain paste, and else the record as it is. A line break is written before them where one was
/// asked for. A write that fails keeps no later record back.
pub proof fn law_batch_writes_the_records_in_order(
    settings: BatchSettings,
    answers: BatchAnswers,
    ids: Seq<Seq<char>>,
    answered: Seq<Option<Seq<ItemView>>>,
    n: nat,
)
    requires
        answers.found == Ok::<Seq<Option<Seq<ItemView>>>, Seq<char>>(answered),
        pastes_succeed(answers),
        answers.newline_paste is Ok,
        n >= 3 * batch::found_items(answered).len() + 4,
    ensures
        ({
            let items = batch::found_items(answered);
            let asked = writes(
                batch::actions_from(settings, answers, BatchPhase::Query { ids }, n),
            );
            let first = if settings.skip_first {
                1int
            } else {
                0
            };
            let newline = if settings.prepend_newline {
                1int
            } else {
                0
            };
            &&& items.len() == 0 ==> asked.len() == 0
            &&& items.len() > 0 ==> asked.len() == newline + items.len() - first
            &&& items.len() > 0 && settings.prepend_newline ==> plainly(asked[0], seq!['\n'])
            &&& items.len() > 0 ==> forall|i: int|
                first <= i < items.len() ==> writes_record(
                    settings,
                    asked[newline + i - first],
                    #[trigger] items[i],
                )
        }),
{
    lemma_batch(settings, answers, ids, answered, n);
}

/// Where nothing fails, the paste of several records takes the steps of each record that it writes,
/// in order and with the waits of its type and size, and presses the Enter key behind each of them
/// but the last; those of the line break come first, without the Enter key.
pub proof fn law_batch_pastes_the_records_in_order(
    settings: BatchSettings,
    answers: BatchAnswers,
    ids: Seq<Seq<char>>,
    answered: Seq<Option<Seq<ItemView>>>,
    n: nat,
)
    requires
        answers.found == Ok::<Seq<Option<Seq<ItemView>>>, Seq<char>>(answered),
        pastes_succeed(answers),
        writes_succeed(answers),
        answers.newline_write is Ok,
        answers.newline_paste is Ok,
        n >= 3 * batch::found_items(answered).len() + 4,
    ensures
        ({
            let items = batch::found_items(answered);
            let actions = batch::actions_from(settings, answers, BatchPhase::Query { ids }, n);
            let taken = performs(actions);
            let first = if settings.skip_first {
                1int
            } else {
                0
            };
            let newline = if settings.prepend_newline {
                1int
            } else {
                0
            };
            &&& actions.last() == (PasteActionView::Finish { outcome: Ok(()) })
            &&& items.len() == 0 ==> taken.len() == 0
            &&& items.len() > 0 ==> taken.len() == newline + items.len() - first
            &&& items.len() > 0 && settings.prepend_newline ==> taken[0] == seq![
                PasteStep::Sleep(15),
                PasteStep::PasteWithFocus,
                PasteStep::Sleep(20),
            ]
            &&& items.len() > 0 ==> forall|i: int|
                first <= i < items.len() ==> pastes_record(
                    taken[newline + i - first],
                    #[trigger] items[i],
                    waiting_size(settings, items[i], (answers.size)(items.skip(i))),
                    i == items.len() - 1,
                )
        }),
{
    lemma_batch(settings, answers, ids, answered, n);
}

#[verifier::rlimit(40)]
proof fn lemma_batch(
    settings: BatchSettings,
    answers: BatchAnswers,
    ids: Seq<Seq<char>>,
    answered: Seq<Option<Seq<ItemView>>>,
    n: nat,
)
    requires
        answers.found == Ok::<Seq<Option<Seq<ItemView>>>, Seq<char>>(answered),
        pastes_succeed(answers),
        answers.newline_paste is Ok,
        n >= 3 * batch::found_items(answered).len() + 4,
    ensures
        ({
            let items = batch::found_items(answered);
            let actions = batch::actions_from(settings, answers, BatchPhase::Query { ids }, n);
            let asked = writes(actions);
            let taken = performs(actions);
            let first = if settings.skip_first {
                1int
            } else {
                0
            };
            let newline = if settings.prepend_newline {
                1int
            } else {
                0
            };
            &&& actions.last() == (PasteActionView::Finish { outcome: Ok(()) })
            &&& items.len() == 0 ==> asked.len() == 0 && taken.len() == 0
            &&& items.len() > 0 ==> asked.len() == newline + items.len() - first
            &&& items.len() > 0 && settings.prepend_newline ==> plainly(asked[0], seq!['\n'])
            &&& items.len() > 0 ==> forall|i: int|
                first <= i < items.len() ==> writes_record(
                    settings,
                    asked[newline + i - first],
                    #[trigger] items[i],
                )
            &&& items.len() > 0 && writes_succeed(answers) && answers.newline_write is Ok ==> {
                &&& taken.len() == newline + items.len() - first
                &&& settings.prepend_newline ==> taken[0] == seq![
                    PasteStep::Sleep(15),
                    PasteStep::PasteWithFocus,
                    PasteStep::Sleep(20),
                ]
                &&& forall|i: int|
                    first <= i < items.len() ==> pastes_record(
                        taken[newline + i - first],
                        #[trigger] items[i],
                        waiting_size(settings, items[i], (answers.size)(items.skip(i))),
                        i == items.len() - 1,
                    )
            }
        }),
{
    batch::law_batch_deals_with_each_record_in_order(settings, answers, ids, n);
    let items = batch::found_items(answered);
    let actions = batch::actions_from(settings, answers, BatchPhase::Query { ids }, n);
    let query = batch::batch_action(settings, BatchPhase::Query { ids });
    lemma_of_one(query);
    if items.len() == 0 {
        let over = PasteActionView::Finish { outcome: Ok(()) };
        lemma_of_one(over);
        lemma_of_both(seq![query], seq![over]);
    } else {
        let first = if settings.skip_first {
            1int
        } else {
            0
        };
        let queue = items.skip(first);
        assert(batch::wanted(settings, items) =~= queue);
        lemma_queue(settings, answers, queue);
        let records = batch::queue_actions(settings, answers, queue);
        let behind = batch::newline_actions(settings, answers, queue);
        lemma_of_both(seq![query], behind);
        assert(actions =~= seq![query] + behind);
        assert(writes(actions) =~= writes(behind));
        assert(performs(actions) =~= performs(behind));
        reveal_strlit("\n");
        assert("\n"@ =~= seq!['\n']);
        lemma_text_delays();
        let write = PasteActionView::Write { args: paste::plain_args("\n"@) };
        let steps = batch::newline_steps();
        let perform = PasteActionView::Perform { steps };
        lemma_of_one(write);
        lemma_of_one(perform);
        assert(steps =~= seq![
            PasteStep::Sleep(15),
            PasteStep::PasteWithFocus,
            PasteStep::Sleep(20),
        ]);
        if settings.prepend_newline {
            if answers.newline_write is Err {
                assert(behind =~= seq![write] + records);
                lemma_of_both(seq![write], records);
                assert(writes(behind) =~= seq![paste::plain_args("\n"@)] + writes(records));
            } else {
                assert(behind =~= seq![write] + (seq![perform] + records));
                lemma_of_both(seq![perform], records);
                lemma_of_both(seq![write], seq![perform] + records);
                assert(writes(behind) =~= seq![paste::plain_args("\n"@)] + writes(records));
                assert(performs(behind) =~= seq![steps] + performs(records));
            }
        } else {
            assert(behind =~= records);
        }
        let newline = if settings.prepend_newline {
            1int
        } else {
            0
        };
        assert forall|i: int| first <= i < items.len() implies writes_record(
            settings,
            writes(actions)[newline + i - first],
            #[trigger] items[i],
        ) by {
            assert(writes(actions)[newline + i - first] == writes(records)[i - first]);
            assert(queue[i - first] == items[i]);
        }
        if writes_succeed(answers) && answers.newline_write is Ok {
            assert forall|i: int| first <= i < items.len() implies pastes_record(
                performs(actions)[newline + i - first],
                #[trigger] items[i],
                waiting_size(settings, items[i], (answers.size)(items.skip(i))),
                i == items.len() - 1,
            ) by {
                assert(performs(actions)[newline + i - first] == performs(records)[i - first]);
                assert(queue[i - first] == items[i]);
                assert(queue.skip(i - first) =~= items.skip(i));
            }
        }
    }
}

/// The records of several questions are the last of each answer that has any, in the order of the
/// questions.
pub proof fn law_found_items(
    before: Seq<Option<Seq<ItemView>>>,
    answer: Option<Seq<ItemView>>,
)
    ensures
        batch::found_items(Seq::empty()) == Seq::<ItemView>::empty(),
        answer matches Some(items) ==> (items.len() > 0 ==> batch::found_items(before.push(answer))
            == batch::found_items(before).push(items[items.len() - 1])),
        answer matches Some(items) ==> (items.len() == 0 ==> batch::found_items(
            before.push(answer),
        ) == batch::found_items(before)),
        answer is None ==> batch::found_items(before.push(answer)) == batch::found_items(before),
{
    assert(before.push(answer).drop_last() =~= before);
}

/// Where each question found something, there is one record for each, at its place.
pub proof fn law_each_question_gives_its_record(answered: Seq<Option<Seq<ItemView>>>)
    requires
        forall|i: int|
            0 <= i < answered.len() ==> (#[trigger] answered[i] matches Some(items) && items.len()
                > 0),
    ensures
        batch::found_items(answered).len() == answered.len(),
        forall|i: int|
            0 <= i < answered.len() ==> #[trigger] batch::found_items(answered)[i]
                == answered[i]->0[answered[i]->0.len() - 1],
    decreases answered.len(),
{
    if answered.len() > 0 {
        let rest = answered.drop_last();
        assert forall|i: int| 0 <= i < rest.len() implies (#[trigger] rest[i] matches Some(items)
            && items.len() > 0) by {
            assert(rest[i] == answered[i]);
        }
        law_each_question_gives_its_record(rest);
        let last = answered[answered.len() - 1];
        assert(answered.last() == last);
        assert forall|i: int| 0 <= i < answered.len() implies #[trigger] batch::found_items(
            answered,
        )[i] == answered[i]->0[answered[i]->0.len() - 1] by {
            if i < rest.len() {
                assert(batch::found_items(answered)[i] == batch::found_items(rest)[i]);
                assert(rest[i] == answered[i]);
            }
        }
    }
}

/// The paste of several records asks for each by its identifier, in order.
pub proof fn law_batch_asks_for_each_record(settings: BatchSettings, ids: Seq<Seq<char>>)
    ensures
        batch::batch_action(settings, BatchPhase::Query { ids }) matches PasteAction::QueryEach {
            queries,
        } && queries.len() == ids.len() && forall|i: int|
            0 <= i < ids.len() ==> asks_by_id(#[trigger] queries[i], ids[i]),
{
}

/// The file of an image or of files is measured before they are written as they are, and nothing
/// else is.
pub proof fn law_batch_measures_files_only(settings: BatchSettings, queue: Seq<ItemView>)
    requires
        queue.len() > 0,
    ensures
        ({
            let value = text::text_or_empty(queue[0].value);
            let asked = batch::batch_action(settings, batch::turn(settings, queue));
            if !settings.plain && (queue[0].item_type == Some("image"@) || queue[0].item_type
                == Some("files"@)) && value.len() > 0 {
                asked == (PasteActionView::MeasureFile { path: value })
            } else {
                asked matches PasteAction::Write { args } && writes_record(settings, args, queue[0])
            }
        }),
{
    reveal_strlit("text");
    reveal_strlit("image");
    reveal_strlit("files");
    assert("text"@.len() != "image"@.len());
    assert("text"@.len() != "files"@.len());
}

/// An error of the questions or of a keystroke ends the paste of several records; a write that fails
/// has the next record take its turn, as a paste that went well does.
pub proof fn law_batch_errors(
    settings: BatchSettings,
    ids: Seq<Seq<char>>,
    queue: Seq<ItemView>,
    size: usize,
    error: Seq<char>,
    outcome: Result<(), Seq<char>>,
)
    ensures
        batch::batch_next(
            settings,
            BatchPhase::Query { ids },
            PasteEvent::QueriedEach { answers: Err(error) },
        ) == (BatchPhaseView::Done { outcome: Err(error) }),
        batch::batch_next(
            settings,
            BatchPhase::Paste { queue, size },
            PasteEvent::Performed { outcome: Err(error) },
        ) == (BatchPhaseView::Done { outcome: Err(error) }),
        batch::batch_next(
            settings,
            BatchPhase::NewlinePaste { queue },
            PasteEvent::Performed { outcome: Err(error) },
        ) == (BatchPhaseView::Done { outcome: Err(error) }),
        batch::batch_next(
            settings,
            BatchPhase::NewlineWrite { queue },
            PasteEvent::Written { outcome: Err(error) },
        ) == batch::batch_next(
            settings,
            BatchPhase::NewlinePaste { queue },
            PasteEvent::Performed { outcome: Ok(()) },
        ),
        batch::batch_next(
            settings,
            BatchPhase::Write { queue, size },
            PasteEvent::Written { outcome: Err(error) },
        ) == batch::batch_next(
            settings,
            BatchPhase::Paste { queue, size },
            PasteEvent::Performed { outcome: Ok(()) },
        ),
        batch::batch_action(settings, BatchPhase::Done { outcome }) == (PasteActionView::Finish {
            outcome,
        }),
        batch::is_set(Some(true)) && !batch::is_set(Some(false)) && !batch::is_set(None),
{
}

/// An answer to another action than the pending one changes nothing, for any of the commands, and
/// nothing changes once a command is over.
pub proof fn law_other_answers_change_nothing(
    settings: BatchSettings,
    quick: QuickPhase<Seq<char>>,
    single: SinglePhase<Seq<char>>,
    several: BatchPhaseView,
    event: PasteEventView,
)
    ensures
        match quick {
            QuickPhase::LookUp { .. } => !(event is Queried),
            QuickPhase::Write { .. } => !(event is Written),
            QuickPhase::Paste => !(event is Performed),
            QuickPhase::Done { .. } => true,
        } ==> paste::quick_next(quick, event) == quick,
        match single {
            SinglePhase::Query { .. } => !(event is Queried),
            SinglePhase::AskPlain { .. } => !(event is PastePlain),
            SinglePhase::Write { .. } => !(event is Written),
            SinglePhase::Measure { .. } => !(event is Measured),
            SinglePhase::Paste { .. } => !(event is Performed),
            SinglePhase::Done { .. } => true,
        } ==> paste::single_next(single, event) == single,
        match several {
            BatchPhase::Query { .. } => !(event is QueriedEach),
            BatchPhase::NewlineWrite { .. } => !(event is Written),
            BatchPhase::NewlinePaste { .. } => !(event is Performed),
            BatchPhase::Measure { .. } => !(event is Measured),
            BatchPhase::Write { .. } => !(event is Written),
            BatchPhase::Paste { .. } => !(event is Performed),
            BatchPhase::Done { .. } => true,
        } ==> batch::batch_next(settings, several, event) == several,
{
}

/// The views of questions, writes and outcomes hold each of their fields.
pub proof fn law_paste_views(
    options: QueryOptions,
    args: WriteArgs,
    error: String,
    items: Vec<HistoryItem>,
    answers: Vec<Option<Vec<HistoryItem>>>,
)
    ensures
        options@.only_favorites == options.only_favorites,
        options@.exclude_deleted == options.exclude_deleted,
        options@.limit == options.limit && options@.offset == options.offset,
        options@.order_by == text::text_of(options.order_by),
        options@.where_clause == text::text_of(options.where_clause),
        options.params matches Some(list) ==> options@.params == Some(text::texts(list@)),
        options.params is None ==> options@.params is None,
        args@.item_type == args.item_type@ && args@.subtype == text::text_of(args.subtype),
        args@.value == args.value@ && args@.search == args.search@ && args@.plain == args.plain,
        paste::outcome_of(Ok(())) == Ok::<(), Seq<char>>(()),
        paste::outcome_of(Err(error)) == Err::<(), Seq<char>>(error@),
        paste::items_of(items@).len() == items@.len(),
        forall|i: int|
            0 <= i < items@.len() ==> #[trigger] paste::items_of(items@)[i] == items@[i]@,
        paste::found_of(answers@).len() == answers@.len(),
        forall|i: int|
            0 <= i < answers@.len() ==> #[trigger] paste::found_of(answers@)[i] == match answers@[i] {
                Some(list) => Some(paste::items_of(list@)),
                None => None,
            },
{
}

/// The views of answers hold what the answers hold.
pub proof fn law_paste_event_views(event: PasteEvent)
    ensures
        match event {
            PasteEvent::Queried { answer } => event@ == (PasteEventView::Queried {
                answer: match answer {
                    QueryOutcome::Failed { error } => QueryOutcome::Failed { error: error@ },
                    QueryOutcome::Refused { error } => QueryOutcome::Refused { error: error@ },
                    QueryOutcome::Found { items } => QueryOutcome::Found {
                        items: paste::items_of(items@),
                    },
                },
            }),
            PasteEvent::QueriedEach { answers } => match answers {
                Ok(list) => event@ == (PasteEventView::QueriedEach {
                    answers: Ok(paste::found_of(list@)),
                }),
                Err(e) => event@ == (PasteEventView::QueriedEach { answers: Err(e@) }),
            },
            PasteEvent::PastePlain { enabled } => event@ == (PasteEventView::PastePlain { enabled }),
            PasteEvent::Measured { size } => event@ == (PasteEventView::Measured { size }),
            PasteEvent::Written { outcome } => event@ == (PasteEventView::Written {
                outcome: paste::outcome_of(outcome),
            }),
            PasteEvent::Performed { outcome } => event@ == (PasteEventView::Performed {
                outcome: paste::outcome_of(outcome),
            }),
        },
{
}

/// The views of actions hold what the actions hold.
pub proof fn law_paste_action_views(action: PasteAction)
    ensures
        match action {
            PasteAction::LookUp { index } => action@ == (PasteActionView::LookUp { index }),
            PasteAction::Query { options } => action@ == (PasteActionView::Query {
                options: options@,
            }),
            PasteAction::QueryEach { queries } => action@ matches PasteAction::QueryEach {
                queries: shown,
            } && shown.len() == queries@.len() && forall|i: int|
                0 <= i < shown.len() ==> #[trigger] shown[i] == queries@[i]@,
            PasteAction::AskPastePlain => action@ is AskPastePlain,
            PasteAction::MeasureFile { path } => action@ == (PasteActionView::MeasureFile {
                path: path@,
            }),
            PasteAction::Write { args } => action@ == (PasteActionView::Write { args: args@ }),
            PasteAction::Perform { steps } => action@ == (PasteActionView::Perform {
                steps: steps@,
            }),
            PasteAction::Finish { outcome } => action@ == (PasteActionView::Finish {
                outcome: paste::outcome_of(outcome),
            }),
        },
{
}

/// The phases of the commands keep what they hold in their views.
pub proof fn law_paste_phase_views(quick: QuickPhase, single: SinglePhase, several: BatchPhase)
    ensures
        match quick {
            QuickPhase::LookUp { index } => quick@ == (QuickPhase::<Seq<char>>::LookUp { index }),
            QuickPhase::Write { args } => quick@ == (QuickPhase::Write { args: args@ }),
            QuickPhase::Paste => quick@ is Paste,
            QuickPhase::Done { outcome } => quick@ == (QuickPhase::Done {
                outcome: paste::outcome_of(outcome),
            }),
        },
        match single {
            SinglePhase::Query { id, plain } => single@ == (SinglePhase::Query { id: id@, plain }),
            SinglePhase::AskPlain { item } => single@ == (SinglePhase::AskPlain { item: item@ }),
            SinglePhase::Write { args, item_type, value } => single@ == (SinglePhase::Write {
                args: args@,
                item_type: item_type@,
                value: value@,
            }),
            SinglePhase::Measure { item_type, value } => single@ == (SinglePhase::Measure {
                item_type: item_type@,
                value: value@,
            }),
            SinglePhase::Paste { delay } => single@ == (SinglePhase::<Seq<char>>::Paste { delay }),
            SinglePhase::Done { outcome } => single@ == (SinglePhase::Done {
                outcome: paste::outcome_of(outcome),
            }),
        },
        match several {
            BatchPhase::Query { ids } => several@ == (BatchPhaseView::Query {
                ids: text::texts(ids@),
            }),
            BatchPhase::NewlineWrite { queue } => several@ == (BatchPhaseView::NewlineWrite {
                queue: paste::items_of(queue@),
            }),
            BatchPhase::NewlinePaste { queue } => several@ == (BatchPhaseView::NewlinePaste {
                queue: paste::items_of(queue@),
            }),
            BatchPhase::Measure { queue } => several@ == (BatchPhaseView::Measure {
                queue: paste::items_of(queue@),
            }),
            BatchPhase::Write { queue, size } => several@ == (BatchPhaseView::Write {
                queue: paste::items_of(queue@),
                size,
            }),
            BatchPhase::Paste { queue, size } => several@ == (BatchPhaseView::Paste {
                queue: paste::items_of(queue@),
                size,
            }),
            BatchPhase::Done { outcome } => several@ == (BatchPhaseView::Done {
                outcome: paste::outcome_of(outcome),
            }),
        },
{
}

} // verus!
