//! What holds of the insertion of an alias over any run.
use vstd::prelude::*;

use crate::alias_path::is_alias_path;
use crate::insert::{
    alias_event_fits, alias_step, failed_message, ignored_message, insert_event_fits, insert_start,
    insert_step, section_end, AliasEventView, AliasPhaseView, InsertEventView, InsertReportView, InsertView,
    MAX_OBJECT_FILE_SIZE,
};
use crate::open_failure::{OpenFailureKind, OpenFailureView};
use crate::runs::{lemma_earlier_event, lemma_last_event};
use crate::text::decimal;
use crate::win32::FILE_TYPE_DISK;

verus! {

/// The insertion of the alias file at `path` after a run of events.
pub open spec fn insert_run(path: Seq<char>, events: Seq<InsertEventView>) -> InsertView
    decreases events.len(),
{
    if events.len() == 0 {
        insert_start(path)
    } else {
        insert_step(insert_run(path, events.drop_last()), events.last())
    }
}

/// The step of the alias file at `path` after a run of events.
pub open spec fn alias_run(path: Seq<char>, events: Seq<AliasEventView>) -> AliasPhaseView
    decreases events.len(),
{
    if events.len() == 0 {
        AliasPhaseView::Open
    } else {
        alias_step(path, alias_run(path, events.drop_last()), events.last())
    }
}

/// A path without the alias extension is ignored, whatever happens: neither the host nor the
/// file is touched.
pub proof fn law_other_paths_are_ignored(path: Seq<char>, events: Seq<InsertEventView>)
    requires
        !is_alias_path(path),
    ensures
        insert_run(path, events) == (InsertView::Finished {
            report: InsertReportView::Ignored { message: ignored_message(path) },
        }),
    decreases events.len(),
{
    if events.len() > 0 {
        law_other_paths_are_ignored(path, events.drop_last());
    }
}

/// The edit section is asked for only for the path that was sent, and only if that is an alias
/// path and the host said that it is ready.
pub proof fn law_edit_section_needs_ready_host(
    path: Seq<char>,
    events: Seq<InsertEventView>,
    section_path: Seq<char>,
)
    requires
        insert_run(path, events) == (InsertView::EditSection { path: section_path }),
    ensures
        section_path == path,
        is_alias_path(path),
        events.contains(InsertEventView::Ready { ready: true }),
    decreases events.len(),
{
    let front = events.drop_last();
    lemma_last_event(events);
    match insert_run(path, front) {
        InsertView::EditSection { path: earlier } => {
            law_edit_section_needs_ready_host(path, front, earlier);
            lemma_earlier_event(events, InsertEventView::Ready { ready: true });
        },
        InsertView::CheckReady { path: checked } => {
            lemma_checked_path(path, front, checked);
        },
        InsertView::Finished { .. } => {},
    }
}

/// The path that is being checked is the one that was sent, and an alias path.
proof fn lemma_checked_path(path: Seq<char>, events: Seq<InsertEventView>, checked: Seq<char>)
    requires
        insert_run(path, events) == (InsertView::CheckReady { path: checked }),
    ensures
        checked == path,
        is_alias_path(path),
    decreases events.len(),
{
    if events.len() > 0 {
        match insert_run(path, events.drop_last()) {
            InsertView::CheckReady { path: earlier } => {
                lemma_checked_path(path, events.drop_last(), earlier);
            },
            _ => {},
        }
    }
}

/// An alias counts as inserted only if the edit section was left without a failure, after the
/// host said that it is ready.
pub proof fn law_inserted_means_success(path: Seq<char>, events: Seq<InsertEventView>)
    requires
        insert_run(path, events) == (InsertView::Finished { report: InsertReportView::Inserted }),
    ensures
        is_alias_path(path),
        events.contains(InsertEventView::Ready { ready: true }),
        events.contains(InsertEventView::SectionLeft { failure: None }),
    decreases events.len(),
{
    if events.len() > 0 {
        let front = events.drop_last();
        lemma_last_event(events);
        match insert_run(path, front) {
            InsertView::EditSection { path: section_path } => {
                law_edit_section_needs_ready_host(path, front, section_path);
                lemma_earlier_event(events, InsertEventView::Ready { ready: true });
            },
            InsertView::Finished { .. } => {
                law_inserted_means_success(path, front);
                lemma_earlier_event(events, InsertEventView::Ready { ready: true });
                lemma_earlier_event(events, InsertEventView::SectionLeft { failure: None });
            },
            InsertView::CheckReady { .. } => {},
        }
    }
}

/// The steps that an insertion has left, at most.
pub open spec fn insert_rank(state: InsertView) -> nat {
    match state {
        InsertView::CheckReady { .. } => 2,
        InsertView::EditSection { .. } => 1,
        InsertView::Finished { .. } => 0,
    }
}

/// Each step that is carried out brings the end of the insertion closer.
pub proof fn law_insert_ends(state: InsertView, event: InsertEventView)
    requires
        insert_event_fits(state, event),
    ensures
        insert_rank(insert_step(state, event)) < insert_rank(state),
        insert_rank(state) == 0 <==> state is Finished,
{
}

/// The file has been opened.
pub open spec fn was_opened(events: Seq<AliasEventView>) -> bool {
    exists|file: usize| #[trigger]
        events.contains(AliasEventView::Opened { file: Ok(file) })
}

/// The file has been found to be a regular file on a disk.
pub open spec fn was_on_disk(events: Seq<AliasEventView>) -> bool {
    events.contains(AliasEventView::Type { file_type: FILE_TYPE_DISK })
}

/// The file has been found to be small enough.
pub open spec fn was_small(events: Seq<AliasEventView>) -> bool {
    exists|bytes: u64|
        bytes <= MAX_OBJECT_FILE_SIZE && #[trigger] events.contains(
            AliasEventView::Size { bytes: Ok(bytes) },
        )
}

/// The step comes after the checks of the file.
pub open spec fn is_past_checks(phase: AliasPhaseView) -> bool {
    ||| phase is Read
    ||| (phase matches AliasPhaseView::Close { outcome, .. } && outcome is Ok)
    ||| phase is FindCursor
    ||| phase is Create
    ||| phase == (AliasPhaseView::Finished { failure: None })
}

/// A file is read, and an object created from it, only after it has been opened and found to
/// be a regular file on a disk that is not too large.
pub proof fn law_only_checked_files_are_read(path: Seq<char>, events: Seq<AliasEventView>)
    requires
        is_past_checks(alias_run(path, events)),
    ensures
        was_opened(events),
        was_on_disk(events),
        was_small(events),
{
    lemma_alias_history(path, events);
}

/// What has been found out about the file at each step.
proof fn lemma_alias_history(path: Seq<char>, events: Seq<AliasEventView>)
    ensures
        ({
            let phase = alias_run(path, events);
            let late = is_past_checks(phase);
            &&& phase is CheckType || phase is QuerySize || late ==> was_opened(events)
            &&& phase is QuerySize || late ==> was_on_disk(events)
            &&& late ==> was_small(events)
        }),
    decreases events.len(),
{
    if events.len() > 0 {
        let front = events.drop_last();
        lemma_alias_history(path, front);
        lemma_last_event(events);
        if was_opened(front) {
            let file = choose|file: usize| #[trigger]
                front.contains(AliasEventView::Opened { file: Ok(file) });
            lemma_earlier_event(events, AliasEventView::Opened { file: Ok(file) });
        }
        if was_on_disk(front) {
            lemma_earlier_event(events, AliasEventView::Type { file_type: FILE_TYPE_DISK });
        }
        if was_small(front) {
            let bytes = choose|bytes: u64|
                bytes <= MAX_OBJECT_FILE_SIZE && #[trigger] front.contains(
                    AliasEventView::Size { bytes: Ok(bytes) },
                );
            lemma_earlier_event(events, AliasEventView::Size { bytes: Ok(bytes) });
        }
    }
}

/// The opened file of which a step asks something, or which it closes.
pub open spec fn file_of(phase: AliasPhaseView) -> Option<usize> {
    match phase {
        AliasPhaseView::CheckType { file } => Some(file),
        AliasPhaseView::QuerySize { file } => Some(file),
        AliasPhaseView::Read { file } => Some(file),
        AliasPhaseView::Close { file, .. } => Some(file),
        _ => None,
    }
}

/// The event opens the file.
pub open spec fn opens_file(phase: AliasPhaseView, event: AliasEventView) -> bool {
    phase is Open && (event matches AliasEventView::Opened { file } && file is Ok)
}

/// The event closes the file.
pub open spec fn closes_file(phase: AliasPhaseView, event: AliasEventView) -> bool {
    phase is Close && event is Closed
}

/// The file that the step `Open` gave in a run, if it gave one.
pub open spec fn opened_file(path: Seq<char>, events: Seq<AliasEventView>) -> Option<usize>
    decreases events.len(),
{
    if events.len() == 0 {
        None
    } else if opens_file(alias_run(path, events.drop_last()), events.last()) {
        Some(events.last()->Opened_file->Ok_0)
    } else {
        opened_file(path, events.drop_last())
    }
}

/// The file that is open is the one that was opened, and while none was opened the run has got
/// no further than that.
proof fn lemma_opened_file(path: Seq<char>, events: Seq<AliasEventView>)
    ensures
        file_of(alias_run(path, events)) is Some ==> file_of(alias_run(path, events))
            == opened_file(path, events),
        alias_run(path, events) is Open ==> opened_file(path, events) is None,
        opened_file(path, events) matches Some(file) ==> events.contains(
            AliasEventView::Opened { file: Ok(file) },
        ),
    decreases events.len(),
{
    if events.len() > 0 {
        let front = events.drop_last();
        lemma_opened_file(path, front);
        lemma_last_event(events);
        match opened_file(path, front) {
            Some(file) => {
                lemma_earlier_event(events, AliasEventView::Opened { file: Ok(file) });
            },
            None => {},
        }
    }
}

/// A run that goes on opens no second file.
proof fn lemma_opened_file_stays(path: Seq<char>, events: Seq<AliasEventView>, i: int)
    requires
        0 <= i <= events.len(),
        opened_file(path, events.take(i)) is Some,
    ensures
        opened_file(path, events) == opened_file(path, events.take(i)),
    decreases events.len(),
{
    if i == events.len() {
        assert(events.take(i) =~= events);
    } else {
        let front = events.drop_last();
        assert(front.take(i) =~= events.take(i));
        lemma_opened_file_stays(path, front, i);
        lemma_opened_file(path, front);
    }
}

/// In every run, the type, the size and the text are all asked of one and the same file, the
/// one that was opened, so that it cannot be exchanged between its checks and its reading; and
/// that file is the one that is closed.
pub proof fn law_one_file_throughout(
    path: Seq<char>,
    events: Seq<AliasEventView>,
    i: int,
    file: usize,
)
    requires
        0 <= i <= events.len(),
        file_of(alias_run(path, events.take(i))) == Some(file),
    ensures
        opened_file(path, events) == Some(file),
        events.contains(AliasEventView::Opened { file: Ok(file) }),
{
    lemma_opened_file(path, events.take(i));
    lemma_opened_file_stays(path, events, i);
    lemma_opened_file(path, events);
}

/// In every run that reaches the reading of a file, that file is the one that was opened, and
/// it has been found to be a regular file on a disk that is not too large.
pub proof fn law_read_file_is_the_opened_one(
    path: Seq<char>,
    events: Seq<AliasEventView>,
    file: usize,
)
    requires
        alias_run(path, events) == (AliasPhaseView::Read { file }),
    ensures
        opened_file(path, events) == Some(file),
        events.contains(AliasEventView::Opened { file: Ok(file) }),
        was_on_disk(events),
        was_small(events),
{
    lemma_opened_file(path, events);
    lemma_alias_history(path, events);
}

/// The number of files opened in a run.
pub open spec fn files_opened(path: Seq<char>, events: Seq<AliasEventView>) -> nat
    decreases events.len(),
{
    if events.len() == 0 {
        0
    } else {
        files_opened(path, events.drop_last()) + if opens_file(
            alias_run(path, events.drop_last()),
            events.last(),
        ) {
            1nat
        } else {
            0nat
        }
    }
}

/// The number of files closed in a run.
pub open spec fn files_closed(path: Seq<char>, events: Seq<AliasEventView>) -> nat
    decreases events.len(),
{
    if events.len() == 0 {
        0
    } else {
        files_closed(path, events.drop_last()) + if closes_file(
            alias_run(path, events.drop_last()),
            events.last(),
        ) {
            1nat
        } else {
            0nat
        }
    }
}

/// At most one file is opened, and it is closed once: at any time one more has been opened than
/// closed if one is open, and otherwise as many. It is closed before the object is created and
/// before the end.
pub proof fn law_file_is_closed(path: Seq<char>, events: Seq<AliasEventView>)
    ensures
        files_opened(path, events) <= 1,
        files_opened(path, events) == files_closed(path, events) + if file_of(
            alias_run(path, events),
        ) is Some {
            1nat
        } else {
            0nat
        },
        alias_run(path, events) is Create || alias_run(path, events) is Finished ==> files_opened(
            path,
            events,
        ) == files_closed(path, events),
        alias_run(path, events) is Open ==> files_opened(path, events) == 0,
    decreases events.len(),
{
    if events.len() > 0 {
        law_file_is_closed(path, events.drop_last());
    }
}

/// The object is created from the text of the file as it was read, where the cursor stands,
/// with the length left to the host.
pub proof fn law_object_is_the_file(
    path: Seq<char>,
    events: Seq<AliasEventView>,
    alias: Seq<char>,
    layer: usize,
    frame: usize,
    length: usize,
)
    requires
        alias_run(path, events) == (AliasPhaseView::Create { alias, layer, frame, length }),
    ensures
        events.contains(AliasEventView::Contents { text: Ok(alias) }),
        events.contains(AliasEventView::Cursor { layer, frame }),
        length == 0,
    decreases events.len(),
{
    let front = events.drop_last();
    lemma_last_event(events);
    if alias_run(path, front) is Create {
        law_object_is_the_file(path, front, alias, layer, frame, length);
        lemma_earlier_event(events, AliasEventView::Cursor { layer, frame });
    } else {
        lemma_text_was_read(path, front, alias);
    }
    lemma_earlier_event(events, AliasEventView::Contents { text: Ok(alias) });
}

/// The text that is kept was read.
proof fn lemma_text_was_read(path: Seq<char>, events: Seq<AliasEventView>, alias: Seq<char>)
    requires
        alias_run(path, events) == (AliasPhaseView::FindCursor { alias }) || (alias_run(
            path,
            events,
        ) matches AliasPhaseView::Close { outcome, .. } && outcome == Ok::<Seq<char>, Seq<char>>(
            alias,
        )),
    ensures
        events.contains(AliasEventView::Contents { text: Ok(alias) }),
    decreases events.len(),
{
    let front = events.drop_last();
    lemma_last_event(events);
    if !(alias_run(path, front) is Read) {
        lemma_text_was_read(path, front, alias);
        lemma_earlier_event(events, AliasEventView::Contents { text: Ok(alias) });
    }
}

/// The end without a failure means that the object was created.
pub proof fn law_success_means_created(path: Seq<char>, events: Seq<AliasEventView>)
    requires
        alias_run(path, events) == (AliasPhaseView::Finished { failure: None }),
    ensures
        events.contains(AliasEventView::Created { failure: None }),
    decreases events.len(),
{
    let front = events.drop_last();
    lemma_last_event(events);
    if alias_run(path, front) is Finished {
        law_success_means_created(path, front);
        lemma_earlier_event(events, AliasEventView::Created { failure: None });
    }
}

/// What comes of the steps for a file that opens as `file`, on a disk, of `bytes` bytes and
/// readable as the text `alias`, while the cursor stands in `layer` at `frame`.
pub open spec fn good_file_events(
    file: usize,
    bytes: u64,
    alias: Seq<char>,
    layer: usize,
    frame: usize,
) -> Seq<AliasEventView> {
    seq![
        AliasEventView::Opened { file: Ok(file) },
        AliasEventView::Type { file_type: FILE_TYPE_DISK },
        AliasEventView::Size { bytes: Ok(bytes) },
        AliasEventView::Contents { text: Ok(alias) },
        AliasEventView::Closed,
        AliasEventView::Cursor { layer, frame },
    ]
}

/// From a file that is there, on a disk, not too large and readable, an object is created with
/// the file's text where the cursor stands; if the host makes the object, the steps end without
/// a failure.
pub proof fn law_good_file_is_inserted(
    path: Seq<char>,
    file: usize,
    bytes: u64,
    alias: Seq<char>,
    layer: usize,
    frame: usize,
)
    requires
        bytes <= MAX_OBJECT_FILE_SIZE,
    ensures
        alias_run(path, good_file_events(file, bytes, alias, layer, frame)) == (AliasPhaseView::Create {
            alias,
            layer,
            frame,
            length: 0,
        }),
        alias_run(
            path,
            good_file_events(file, bytes, alias, layer, frame).push(
                AliasEventView::Created { failure: None },
            ),
        ) == (AliasPhaseView::Finished { failure: None }),
{
    let events = good_file_events(file, bytes, alias, layer, frame);
    let closed = events.drop_last();
    let read = closed.drop_last();
    let sized = read.drop_last();
    let typed = sized.drop_last();
    let opened = typed.drop_last();
    assert(alias_run(path, opened.drop_last()) is Open);
    assert(alias_run(path, opened) is CheckType);
    assert(alias_run(path, typed) is QuerySize);
    assert(alias_run(path, sized) is Read);
    assert(alias_run(path, read) == (AliasPhaseView::Close { file, outcome: Ok(alias) }));
    assert(alias_run(path, closed) == (AliasPhaseView::FindCursor { alias }));
    assert(events.push(AliasEventView::Created { failure: None }).drop_last() =~= events);
}

/// The whole insertion of the file at `path`, when the host is ready and what comes of the steps
/// inside the edit section is `inner`: the section is left as those steps end.
pub open spec fn section_run(path: Seq<char>, inner: Seq<AliasEventView>) -> Seq<InsertEventView> {
    match section_end(alias_run(path, inner)) {
        Some(end) => seq![InsertEventView::Ready { ready: true }, end],
        None => seq![InsertEventView::Ready { ready: true }],
    }
}

/// The insertion ends as the steps inside the edit section do: it is not over before they are,
/// a failure of theirs is reported, and without one the alias counts as inserted.
pub proof fn law_insertion_ends_as_the_file(path: Seq<char>, inner: Seq<AliasEventView>)
    requires
        is_alias_path(path),
    ensures
        insert_run(path, section_run(path, inner)) == match alias_run(path, inner) {
            AliasPhaseView::Finished { failure: None } => InsertView::Finished {
                report: InsertReportView::Inserted,
            },
            AliasPhaseView::Finished { failure: Some(failure) } => InsertView::Finished {
                report: InsertReportView::Failed { message: failed_message(failure) },
            },
            _ => InsertView::EditSection { path },
        },
{
    let ready = seq![InsertEventView::Ready { ready: true }];
    assert(insert_run(path, ready.drop_last()) == (InsertView::CheckReady { path }));
    assert(insert_run(path, ready) == (InsertView::EditSection { path }));
    match section_end(alias_run(path, inner)) {
        Some(end) => {
            assert(section_run(path, inner).drop_last() =~= ready);
        },
        None => {},
    }
}

/// An alias that counts as inserted was opened, found to be a regular file on a disk that is not
/// too large, and made into an object: this links the end of the steps inside the edit section
/// to the end of the insertion.
pub proof fn law_inserted_file_was_checked(
    path: Seq<char>,
    inner: Seq<AliasEventView>,
    failure: Option<Seq<char>>,
)
    requires
        alias_run(path, inner) == (AliasPhaseView::Finished { failure }),
        insert_step(
            InsertView::EditSection { path },
            InsertEventView::SectionLeft { failure },
        ) == (InsertView::Finished { report: InsertReportView::Inserted }),
    ensures
        failure is None,
        was_opened(inner),
        was_on_disk(inner),
        was_small(inner),
        inner.contains(AliasEventView::Created { failure: None }),
{
    law_only_checked_files_are_read(path, inner);
    law_success_means_created(path, inner);
}

/// The steps inside the edit section that are left, at most.
pub open spec fn alias_rank(phase: AliasPhaseView) -> nat {
    match phase {
        AliasPhaseView::Open => 7,
        AliasPhaseView::CheckType { .. } => 6,
        AliasPhaseView::QuerySize { .. } => 5,
        AliasPhaseView::Read { .. } => 4,
        AliasPhaseView::Close { .. } => 3,
        AliasPhaseView::FindCursor { .. } => 2,
        AliasPhaseView::Create { .. } => 1,
        AliasPhaseView::Finished { .. } => 0,
    }
}

/// Each step that is carried out brings the end of the edit section closer.
pub proof fn law_alias_ends(path: Seq<char>, phase: AliasPhaseView, event: AliasEventView)
    requires
        alias_event_fits(phase, event),
    ensures
        alias_rank(alias_step(path, phase, event)) < alias_rank(phase),
        alias_rank(phase) == 0 <==> phase is Finished,
{
}

/// What becomes of a received path: one that ends in the alias extension is asked about at the
/// host, and any other is ignored with a message that names it.
pub proof fn law_received_path(path: Seq<char>)
    ensures
        is_alias_path(path) ==> insert_start(path) == (InsertView::CheckReady { path }),
        !is_alias_path(path) ==> insert_start(path) == (InsertView::Finished {
            report: InsertReportView::Ignored {
                message: "'.object' 拡張子ではないファイルを受信しました（無視します）: "@ + path,
            },
        }),
{
}

/// The edit section is entered for a path exactly if the host is ready; otherwise the insertion
/// ends and says so.
pub proof fn law_host_decides(path: Seq<char>)
    ensures
        insert_step(InsertView::CheckReady { path }, InsertEventView::Ready { ready: true }) == (
        InsertView::EditSection { path }),
        insert_step(InsertView::CheckReady { path }, InsertEventView::Ready { ready: false }) == (
        InsertView::Finished {
            report: InsertReportView::NotReady {
                message: "編集ハンドルがまだ準備できていません（タイムラインが開かれていない可能性があります）"@,
            },
        }),
{
}

/// How the edit section was left decides how the insertion ends: without a failure the alias is
/// inserted, a failure is reported, and so is what the host says when it does not let the section
/// be entered.
pub proof fn law_section_decides(path: Seq<char>, text: Seq<char>)
    ensures
        insert_step(
            InsertView::EditSection { path },
            InsertEventView::SectionLeft { failure: None },
        ) == (InsertView::Finished { report: InsertReportView::Inserted }),
        insert_step(
            InsertView::EditSection { path },
            InsertEventView::SectionLeft { failure: Some(text) },
        ) == (InsertView::Finished {
            report: InsertReportView::Failed {
                message: "エイリアス挿入処理でエラーが発生しました: "@ + text,
            },
        }),
        insert_step(
            InsertView::EditSection { path },
            InsertEventView::SectionRefused { text },
        ) == (InsertView::Finished {
            report: InsertReportView::Unavailable {
                message: "call_edit_section が失敗しました（編集不可状態の可能性があります）: "@ + text,
            },
        }),
{
}

/// What came of something that the insertion did not have to do changes nothing.
pub proof fn law_unfit_insert_event(state: InsertView, event: InsertEventView)
    requires
        state is CheckReady ==> !(event is Ready),
        state is EditSection ==> event is Ready,
    ensures
        insert_step(state, event) == state,
{
}

/// A file that opens is asked for its type, as the file it was opened as. One that does not open
/// ends the steps, with a message of its own if it does not exist, and with what the system says
/// otherwise.
pub proof fn law_open_decides(path: Seq<char>, file: usize, failure: OpenFailureView)
    ensures
        alias_step(path, AliasPhaseView::Open, AliasEventView::Opened { file: Ok(file) }) == (
        AliasPhaseView::CheckType { file }),
        alias_step(path, AliasPhaseView::Open, AliasEventView::Opened { file: Err(failure) }) == (
        AliasPhaseView::Finished {
            failure: Some(
                if failure.kind == OpenFailureKind::NotFound {
                    "エイリアスファイルが存在しません: "@ + path
                } else {
                    "ファイルを開けませんでした: "@ + path + " ("@ + failure.text + ")"@
                },
            ),
        }),
{
}

/// Only a file of type 1, a regular file on a disk, is asked for its size. Any other is closed and
/// refused.
pub proof fn law_type_decides(path: Seq<char>, file: usize, file_type: u32)
    ensures
        file_type == 1 ==> alias_step(
            path,
            AliasPhaseView::CheckType { file },
            AliasEventView::Type { file_type },
        ) == (AliasPhaseView::QuerySize { file }),
        file_type != 1 ==> alias_step(
            path,
            AliasPhaseView::CheckType { file },
            AliasEventView::Type { file_type },
        ) == (AliasPhaseView::Close {
            file,
            outcome: Err("通常のディスクファイルではありません（パイプやデバイスファイルは拒否します）: "@ + path),
        }),
{
}

/// Only a file of at most 1,048,576 bytes is read. A larger one, and one whose size is not known,
/// is closed and refused.
pub proof fn law_size_decides(path: Seq<char>, file: usize, bytes: u64, error: Seq<char>)
    ensures
        bytes <= 1_048_576 ==> alias_step(
            path,
            AliasPhaseView::QuerySize { file },
            AliasEventView::Size { bytes: Ok(bytes) },
        ) == (AliasPhaseView::Read { file }),
        bytes > 1_048_576 ==> alias_step(
            path,
            AliasPhaseView::QuerySize { file },
            AliasEventView::Size { bytes: Ok(bytes) },
        ) == (AliasPhaseView::Close {
            file,
            outcome: Err(
                "ファイルサイズが上限を超えています（"@ + decimal(bytes as nat) + " バイト、上限 "@ + decimal(
                    1_048_576,
                ) + " バイト）: "@ + path,
            ),
        }),
        alias_step(
            path,
            AliasPhaseView::QuerySize { file },
            AliasEventView::Size { bytes: Err(error) },
        ) == (AliasPhaseView::Close {
            file,
            outcome: Err("ファイルのメタデータ取得に失敗しました: "@ + error),
        }),
{
}

/// The text that was read is kept while the file is closed, and so is the reason of a failure to
/// read it. After that the text goes on to the cursor, and the reason ends the steps.
pub proof fn law_reading_decides(path: Seq<char>, file: usize, text: Seq<char>)
    ensures
        alias_step(
            path,
            AliasPhaseView::Read { file },
            AliasEventView::Contents { text: Ok(text) },
        ) == (AliasPhaseView::Close { file, outcome: Ok(text) }),
        alias_step(
            path,
            AliasPhaseView::Read { file },
            AliasEventView::Contents { text: Err(text) },
        ) == (AliasPhaseView::Close { file, outcome: Err("ファイルの読み込みに失敗しました: "@ + text) }),
        alias_step(
            path,
            AliasPhaseView::Close { file, outcome: Ok(text) },
            AliasEventView::Closed,
        ) == (AliasPhaseView::FindCursor { alias: text }),
        alias_step(
            path,
            AliasPhaseView::Close { file, outcome: Err(text) },
            AliasEventView::Closed,
        ) == (AliasPhaseView::Finished { failure: Some(text) }),
{
}

/// The object is created from the text that was read, in the cursor's layer at the cursor's
/// frame, with the length zero, which leaves it to the host. What the host says then decides the
/// end.
pub proof fn law_object_at_the_cursor(
    path: Seq<char>,
    alias: Seq<char>,
    layer: usize,
    frame: usize,
    length: usize,
    error: Seq<char>,
)
    ensures
        alias_step(
            path,
            AliasPhaseView::FindCursor { alias },
            AliasEventView::Cursor { layer, frame },
        ) == (AliasPhaseView::Create { alias, layer, frame, length: 0 }),
        alias_step(
            path,
            AliasPhaseView::Create { alias, layer, frame, length },
            AliasEventView::Created { failure: None },
        ) == (AliasPhaseView::Finished { failure: None }),
        alias_step(
            path,
            AliasPhaseView::Create { alias, layer, frame, length },
            AliasEventView::Created { failure: Some(error) },
        ) == (AliasPhaseView::Finished {
            failure: Some("create_object_from_alias が失敗しました: "@ + error),
        }),
{
}

/// What came of something that was not to be done changes nothing.
pub proof fn law_unfit_alias_event(path: Seq<char>, phase: AliasPhaseView, event: AliasEventView)
    requires
        !(phase is Open && event is Opened),
        !(phase is CheckType && event is Type),
        !(phase is QuerySize && event is Size),
        !(phase is Read && event is Contents),
        !(phase is Close && event is Closed),
        !(phase is FindCursor && event is Cursor),
        !(phase is Create && event is Created),
    ensures
        alias_step(path, phase, event) == phase,
{
}

/// The edit section is left when the steps inside it are at their end and not before, with the
/// failure that they ended in.
pub proof fn law_section_is_left_at_the_end(phase: AliasPhaseView, failure: Option<Seq<char>>)
    ensures
        section_end(AliasPhaseView::Finished { failure }) == Some(
            InsertEventView::SectionLeft { failure },
        ),
        !(phase is Finished) ==> section_end(phase) is None,
{
}

} // verus!
