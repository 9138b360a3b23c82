//! What holds of the client over any run.
use vstd::prelude::*;

use crate::alias_path::is_alias_path;
use crate::client::{
    client_event_fits, client_start, client_step, retry_decision, ClientEventView, ClientView,
    RetryView, RetryWait, EXIT_INVALID, EXIT_NOT_SENT, EXIT_SUCCESS, MAX_RETRIES,
};
use crate::open_failure::{OpenFailureKind, OpenFailureView};
use crate::protocol::payload_of;
use crate::runs::{lemma_earlier_event, lemma_last_event};
use crate::text::decimal;

verus! {

/// The client after a run of events.
pub open spec fn client_run(
    program: Seq<char>,
    arguments: Seq<Seq<char>>,
    events: Seq<ClientEventView>,
) -> ClientView
    decreases events.len(),
{
    if events.len() == 0 {
        client_start(program, arguments)
    } else {
        client_step(client_run(program, arguments, events.drop_last()), events.last())
    }
}

/// The number of attempts to connect in a run.
pub open spec fn connect_attempts(
    program: Seq<char>,
    arguments: Seq<Seq<char>>,
    events: Seq<ClientEventView>,
) -> nat
    decreases events.len(),
{
    if events.len() == 0 {
        0
    } else {
        let before = client_run(program, arguments, events.drop_last());
        connect_attempts(program, arguments, events.drop_last()) + if before is Connect
            && client_event_fits(before, events.last()) {
            1nat
        } else {
            0nat
        }
    }
}

/// How far the attempts to connect are at each point of a run.
proof fn lemma_attempts(
    program: Seq<char>,
    arguments: Seq<Seq<char>>,
    events: Seq<ClientEventView>,
)
    ensures
        ({
            let attempts = connect_attempts(program, arguments, events);
            match client_run(program, arguments, events) {
                ClientView::OpenFile { .. } => attempts == 0,
                ClientView::Connect { attempt, .. } => attempts == attempt < MAX_RETRIES,
                ClientView::Wait { next_attempt, .. } => attempts == next_attempt < MAX_RETRIES,
                ClientView::Exit { code, .. } => attempts <= MAX_RETRIES && (code == EXIT_INVALID
                    ==> attempts == 0),
                _ => attempts <= MAX_RETRIES,
            }
        }),
    decreases events.len(),
{
    if events.len() > 0 {
        lemma_attempts(program, arguments, events.drop_last());
    }
}

/// The client tries to connect at most `MAX_RETRIES` times, and not at all if it ends because
/// of its arguments or the file.
pub proof fn law_attempts_are_bounded(
    program: Seq<char>,
    arguments: Seq<Seq<char>>,
    events: Seq<ClientEventView>,
)
    ensures
        connect_attempts(program, arguments, events) <= MAX_RETRIES,
        (client_run(program, arguments, events) matches ClientView::Exit { code, .. } && code
            == EXIT_INVALID) ==> connect_attempts(program, arguments, events) == 0,
{
    lemma_attempts(program, arguments, events);
}

/// The file has been opened.
pub open spec fn file_opened(events: Seq<ClientEventView>) -> bool {
    events.contains(ClientEventView::Opened { failure: None })
}

/// The payload for `path` has been sent in full.
pub open spec fn payload_sent(path: Seq<char>, events: Seq<ClientEventView>) -> bool {
    exists|count: u32|
        count == payload_of(path).len() && #[trigger] events.contains(
            ClientEventView::Written { written: Ok(count) },
        )
}

/// The client works on its one argument, an alias path.
pub open spec fn works_on(arguments: Seq<Seq<char>>, path: Seq<char>) -> bool {
    arguments == seq![path] && is_alias_path(path)
}

/// What has happened at each point of a run.
proof fn lemma_history(
    program: Seq<char>,
    arguments: Seq<Seq<char>>,
    events: Seq<ClientEventView>,
)
    ensures
        match client_run(program, arguments, events) {
            ClientView::OpenFile { path } => works_on(arguments, path),
            ClientView::Connect { path, .. } => works_on(arguments, path) && file_opened(events),
            ClientView::Wait { path, .. } => works_on(arguments, path) && file_opened(events),
            ClientView::Write { payload, .. } => works_on(arguments, arguments[0]) && file_opened(
                events,
            ) && payload == payload_of(arguments[0]),
            ClientView::Close { failure, .. } => works_on(arguments, arguments[0]) && file_opened(
                events,
            ) && (failure is None ==> payload_sent(arguments[0], events)),
            ClientView::Exit { code, lines } => {
                &&& code == EXIT_SUCCESS || code == EXIT_INVALID || code == EXIT_NOT_SENT
                &&& code == EXIT_SUCCESS <==> lines.len() == 0
                &&& code == EXIT_SUCCESS || code == EXIT_NOT_SENT ==> works_on(
                    arguments,
                    arguments[0],
                ) && file_opened(events)
                &&& code == EXIT_SUCCESS ==> payload_sent(arguments[0], events)
            },
        },
    decreases events.len(),
{
    if events.len() == 0 {
        if arguments.len() == 1 {
            assert(arguments =~= seq![arguments[0]]);
        }
    } else {
        let front = events.drop_last();
        lemma_history(program, arguments, front);
        lemma_last_event(events);
        if file_opened(front) {
            lemma_earlier_event(events, ClientEventView::Opened { failure: None });
        }
        if payload_sent(arguments[0], front) {
            let count = choose|count: u32|
                count == payload_of(arguments[0]).len() && #[trigger] front.contains(
                    ClientEventView::Written { written: Ok(count) },
                );
            lemma_earlier_event(events, ClientEventView::Written { written: Ok(count) });
        }
    }
}

/// What the client writes to the pipe is the payload for its argument, and only after it found
/// that this is an alias path and that the file opens.
pub proof fn law_only_checked_paths_are_sent(
    program: Seq<char>,
    arguments: Seq<Seq<char>>,
    events: Seq<ClientEventView>,
    pipe: isize,
    payload: Seq<u8>,
)
    requires
        client_run(program, arguments, events) == (ClientView::Write { pipe, payload }),
    ensures
        arguments.len() == 1,
        is_alias_path(arguments[0]),
        file_opened(events),
        payload == payload_of(arguments[0]),
{
    lemma_history(program, arguments, events);
}

/// The client ends with one of three codes. It ends with success only if the whole payload was
/// sent, with the code for a failed transmission only if the arguments and the file were good,
/// and it says something exactly if it does not end with success.
pub proof fn law_exit_codes(
    program: Seq<char>,
    arguments: Seq<Seq<char>>,
    events: Seq<ClientEventView>,
    code: i32,
    lines: Seq<Seq<char>>,
)
    requires
        client_run(program, arguments, events) == (ClientView::Exit { code, lines }),
    ensures
        code == EXIT_SUCCESS || code == EXIT_INVALID || code == EXIT_NOT_SENT,
        code == EXIT_SUCCESS ==> arguments.len() == 1 && payload_sent(arguments[0], events),
        code == EXIT_SUCCESS || code == EXIT_NOT_SENT ==> arguments.len() == 1 && is_alias_path(
            arguments[0],
        ) && file_opened(events),
        code != EXIT_SUCCESS <==> lines.len() > 0,
{
    lemma_history(program, arguments, events);
}

/// The client is connected to the pipe.
pub open spec fn holds_pipe(state: ClientView) -> bool {
    state is Write || state is Close
}

/// The event makes the connection.
pub open spec fn connects(state: ClientView, event: ClientEventView) -> bool {
    state is Connect && event is Connected
}

/// The event closes the connection.
pub open spec fn disconnects(state: ClientView, event: ClientEventView) -> bool {
    state is Close && event is Closed
}

/// The number of connections made in a run.
pub open spec fn connections_made(
    program: Seq<char>,
    arguments: Seq<Seq<char>>,
    events: Seq<ClientEventView>,
) -> nat
    decreases events.len(),
{
    if events.len() == 0 {
        0
    } else {
        connections_made(program, arguments, events.drop_last()) + if connects(
            client_run(program, arguments, events.drop_last()),
            events.last(),
        ) {
            1nat
        } else {
            0nat
        }
    }
}

/// The number of connections closed in a run.
pub open spec fn connections_closed(
    program: Seq<char>,
    arguments: Seq<Seq<char>>,
    events: Seq<ClientEventView>,
) -> nat
    decreases events.len(),
{
    if events.len() == 0 {
        0
    } else {
        connections_closed(program, arguments, events.drop_last()) + if disconnects(
            client_run(program, arguments, events.drop_last()),
            events.last(),
        ) {
            1nat
        } else {
            0nat
        }
    }
}

/// At most one connection is made, and it is closed once, whatever comes of the transmission: at
/// any time one more has been made than closed if the client is connected, and otherwise as
/// many. A client that has ended has closed what it made.
pub proof fn law_connection_is_closed(
    program: Seq<char>,
    arguments: Seq<Seq<char>>,
    events: Seq<ClientEventView>,
)
    ensures
        connections_made(program, arguments, events) <= 1,
        connections_made(program, arguments, events) == connections_closed(
            program,
            arguments,
            events,
        ) + if holds_pipe(client_run(program, arguments, events)) {
            1nat
        } else {
            0nat
        },
        client_run(program, arguments, events) is Exit ==> connections_made(
            program,
            arguments,
            events,
        ) == connections_closed(program, arguments, events),
        (client_run(program, arguments, events) is OpenFile || client_run(
            program,
            arguments,
            events,
        ) is Connect || client_run(program, arguments, events) is Wait) ==> connections_made(
            program,
            arguments,
            events,
        ) == 0,
    decreases events.len(),
{
    if events.len() > 0 {
        law_connection_is_closed(program, arguments, events.drop_last());
    }
}

/// The pipe of a client that is connected.
pub open spec fn pipe_of(state: ClientView) -> Option<isize> {
    match state {
        ClientView::Write { pipe, .. } => Some(pipe),
        ClientView::Close { pipe, .. } => Some(pipe),
        _ => None,
    }
}

/// The pipe that the client is connected to is the one that was connected, until it is closed.
pub proof fn law_held_connection_stays(state: ClientView, event: ClientEventView)
    requires
        holds_pipe(state),
        !disconnects(state, event),
    ensures
        holds_pipe(client_step(state, event)),
        pipe_of(client_step(state, event)) == pipe_of(state),
{
}

/// The steps that the client has left, at most.
pub open spec fn client_rank(state: ClientView) -> nat {
    match state {
        ClientView::OpenFile { .. } => 2 * MAX_RETRIES as nat + 3,
        ClientView::Wait { next_attempt, .. } => 2 * attempts_left(next_attempt) + 3,
        ClientView::Connect { attempt, .. } => 2 * attempts_left(attempt) + 2,
        ClientView::Write { .. } => 2,
        ClientView::Close { .. } => 1,
        ClientView::Exit { .. } => 0,
    }
}

/// The attempts that are left when the next one has the number `attempt`.
pub open spec fn attempts_left(attempt: u32) -> nat {
    if attempt < MAX_RETRIES {
        (MAX_RETRIES - attempt) as nat
    } else {
        0
    }
}

/// Each step that is carried out brings the end of the client closer.
pub proof fn law_client_ends(
    program: Seq<char>,
    arguments: Seq<Seq<char>>,
    events: Seq<ClientEventView>,
    event: ClientEventView,
)
    requires
        client_event_fits(client_run(program, arguments, events), event),
    ensures
        client_rank(client_run(program, arguments, events.push(event))) < client_rank(
            client_run(program, arguments, events),
        ),
        client_rank(client_run(program, arguments, events)) > 0,
{
    assert(events.push(event).drop_last() =~= events);
    lemma_attempts(program, arguments, events);
}

/// A good path to a file that opens is sent if the pipe takes it: the client then ends with
/// success.
pub proof fn law_good_path_is_sent(
    program: Seq<char>,
    path: Seq<char>,
    pipe: isize,
    count: u32,
)
    requires
        is_alias_path(path),
        count == payload_of(path).len(),
    ensures
        client_run(
            program,
            seq![path],
            seq![
                ClientEventView::Opened { failure: None },
                ClientEventView::Connected { pipe },
                ClientEventView::Written { written: Ok(count) },
                ClientEventView::Closed,
            ],
        ) == (ClientView::Exit { code: EXIT_SUCCESS, lines: seq![] }),
{
    let events = seq![
        ClientEventView::Opened { failure: None },
        ClientEventView::Connected { pipe },
        ClientEventView::Written { written: Ok(count) },
        ClientEventView::Closed,
    ];
    let e3 = events.drop_last();
    let e2 = e3.drop_last();
    let e1 = e2.drop_last();
    assert(client_run(program, seq![path], e1.drop_last()) == (ClientView::OpenFile { path }));
    assert(client_run(program, seq![path], e1) == (ClientView::Connect { path, attempt: 0 }));
    assert(client_run(program, seq![path], e2) == (ClientView::Write {
        pipe,
        payload: payload_of(path),
    }));
    assert(client_run(program, seq![path], e3) == (ClientView::Close { pipe, failure: None }));
}

/// What follows an attempt that failed, counted from zero. The third is the last, whatever it
/// failed with. Before it, a failure with the `HRESULT` `0x8007_00E7`, a busy pipe, is answered
/// with a retry after a wait of at most 5,000 milliseconds for the pipe; one with `0x8007_0002`, a
/// missing pipe, with a retry after a sleep of 500 milliseconds; and any other is final.
pub proof fn law_failed_attempt(attempt: u32, hresult: i32, error: Seq<char>)
    ensures
        attempt >= 2 ==> retry_decision(attempt, hresult, error) == (RetryView::GiveUp {
            message: "Named Pipe への接続に "@ + decimal(3) + " 回試みましたが失敗しました (最後のエラー: "@ + error
                + ")"@,
        }),
        attempt < 2 && hresult + 0x1_0000_0000 == 0x8007_00E7 ==> retry_decision(
            attempt,
            hresult,
            error,
        ) == (RetryView::Retry {
            notice: "パイプが使用中です。待機してリトライします... ("@ + decimal((attempt + 1) as nat) + "/"@ + decimal(
                3,
            ) + ")"@,
            wait: RetryWait::ForPipe { at_most_ms: 5_000 },
        }),
        attempt < 2 && hresult + 0x1_0000_0000 == 0x8007_0002 ==> retry_decision(
            attempt,
            hresult,
            error,
        ) == (RetryView::Retry {
            notice: "パイプが見つかりません。プラグインの起動を待機します... ("@ + decimal((attempt + 1) as nat) + "/"@
                + decimal(3) + ")"@,
            wait: RetryWait::Sleep { pause_ms: 500 },
        }),
        attempt < 2 && hresult + 0x1_0000_0000 != 0x8007_00E7 && hresult + 0x1_0000_0000
            != 0x8007_0002 ==> retry_decision(attempt, hresult, error) == (RetryView::GiveUp {
            message: "Named Pipe への接続に失敗しました: "@ + error,
        }),
{
}

/// What the client does with its arguments: with one that is an alias path it opens the file.
/// Any other one is refused, and any other number of arguments is answered with the usage; both
/// end with the code 1.
pub proof fn law_arguments_decide(program: Seq<char>, arguments: Seq<Seq<char>>)
    ensures
        arguments.len() == 1 && is_alias_path(arguments[0]) ==> client_start(program, arguments)
            == (ClientView::OpenFile { path: arguments[0] }),
        arguments.len() == 1 && !is_alias_path(arguments[0]) ==> client_start(program, arguments)
            == (ClientView::Exit {
            code: 1,
            lines: seq!["エラー: "@ + ("'.object' 拡張子のファイルを指定してください: "@ + arguments[0])],
        }),
        arguments.len() != 1 ==> client_start(program, arguments) == (ClientView::Exit {
            code: 1,
            lines: seq![
                "使用方法: "@ + program + " <.objectファイルの絶対パス>"@,
                "例: "@ + program + " \"C:\\エイリアス\\テキスト.object\""@,
            ],
        }),
{
}

/// A file that opens leads to the first attempt to connect. One that does not ends the client with
/// the code 1 and a message that fits the failure.
pub proof fn law_file_decides(path: Seq<char>, failure: OpenFailureView)
    ensures
        client_step(
            ClientView::OpenFile { path },
            ClientEventView::Opened { failure: None },
        ) == (ClientView::Connect { path, attempt: 0 }),
        client_step(
            ClientView::OpenFile { path },
            ClientEventView::Opened { failure: Some(failure) },
        ) == (ClientView::Exit {
            code: 1,
            lines: seq![
                "エラー: "@ + match failure.kind {
                    OpenFailureKind::NotFound => "ファイルが見つかりません: "@ + path,
                    OpenFailureKind::PermissionDenied => "ファイルへのアクセスが拒否されました: "@ + path,
                    OpenFailureKind::Other => "ファイルを開けませんでした: "@ + path + " ("@ + failure.text
                        + ")"@,
                },
            ],
        }),
{
}

/// A connection leads to the writing of the payload for the path to that pipe. An attempt that
/// failed leads to a wait before the next, if there is to be one, and otherwise to the end with
/// the code 2. After the wait the next attempt is made.
pub proof fn law_connecting(
    path: Seq<char>,
    attempt: u32,
    pipe: isize,
    hresult: i32,
    error: Seq<char>,
    notice: Seq<char>,
    wait: RetryWait,
)
    ensures
        client_step(
            ClientView::Connect { path, attempt },
            ClientEventView::Connected { pipe },
        ) == (ClientView::Write { pipe, payload: payload_of(path) }),
        client_step(
            ClientView::Connect { path, attempt },
            ClientEventView::ConnectFailed { hresult, error },
        ) == match retry_decision(attempt, hresult, error) {
            RetryView::Retry { notice: said, wait: how } => ClientView::Wait {
                path,
                next_attempt: (attempt + 1) as u32,
                notice: said,
                wait: how,
            },
            RetryView::GiveUp { message } => ClientView::Exit {
                code: 2,
                lines: seq!["エラー: "@ + message],
            },
        },
        client_step(
            ClientView::Wait { path, next_attempt: attempt, notice, wait },
            ClientEventView::Waited,
        ) == (ClientView::Connect { path, attempt }),
{
}

/// After the transmission the pipe is closed, whatever came of it. Exactly if as many bytes were
/// sent as the payload has, the client then ends with the code 0 and says nothing; otherwise it
/// ends with the code 2 and says what went wrong.
pub proof fn law_transmission_decides(
    pipe: isize,
    payload: Seq<u8>,
    count: u32,
    error: Seq<char>,
    message: Seq<char>,
)
    ensures
        count == payload.len() ==> client_step(
            ClientView::Write { pipe, payload },
            ClientEventView::Written { written: Ok(count) },
        ) == (ClientView::Close { pipe, failure: None }),
        count != payload.len() ==> client_step(
            ClientView::Write { pipe, payload },
            ClientEventView::Written { written: Ok(count) },
        ) == (ClientView::Close {
            pipe,
            failure: Some(
                "送信バイト数が一致しません: 期待="@ + decimal(payload.len()) + ", 実際="@ + decimal(count as nat),
            ),
        }),
        client_step(
            ClientView::Write { pipe, payload },
            ClientEventView::Written { written: Err(error) },
        ) == (ClientView::Close { pipe, failure: Some("WriteFile が失敗しました: "@ + error) }),
        client_step(ClientView::Close { pipe, failure: None }, ClientEventView::Closed) == (
        ClientView::Exit { code: 0, lines: seq![] }),
        client_step(
            ClientView::Close { pipe, failure: Some(message) },
            ClientEventView::Closed,
        ) == (ClientView::Exit { code: 2, lines: seq!["エラー: "@ + message] }),
{
}

/// What came of something that the client did not have to do changes nothing.
pub proof fn law_unfit_client_event(state: ClientView, event: ClientEventView)
    requires
        !(state is OpenFile && event is Opened),
        !(state is Connect && (event is Connected || event is ConnectFailed)),
        !(state is Wait && event is Waited),
        !(state is Write && event is Written),
        !(state is Close && event is Closed),
    ensures
        client_step(state, event) == state,
{
}

/// An attempt that fails for a reason that may pass.
pub struct PassingFailure {
    /// Every instance of the pipe is taken, or else the pipe does not exist.
    pub busy: bool,
    /// What the system says about it.
    pub error: Seq<char>,
}

/// What comes of such an attempt and of the wait after it.
pub open spec fn passing_events(failure: PassingFailure) -> Seq<ClientEventView> {
    seq![
        ClientEventView::ConnectFailed {
            hresult: if failure.busy {
                (0x8007_00E7 - 0x1_0000_0000) as i32
            } else {
                (0x8007_0002 - 0x1_0000_0000) as i32
            },
            error: failure.error,
        },
        ClientEventView::Waited,
    ]
}

/// A file that opens, and then attempts that fail for reasons that may pass.
pub open spec fn patient_events(failures: Seq<PassingFailure>) -> Seq<ClientEventView>
    decreases failures.len(),
{
    if failures.len() == 0 {
        seq![ClientEventView::Opened { failure: None }]
    } else {
        patient_events(failures.drop_last()) + passing_events(failures.last())
    }
}

/// A client whose attempts fail with a busy or a missing pipe, fewer than three times, tries
/// again.
proof fn lemma_patient_client(program: Seq<char>, path: Seq<char>, failures: Seq<PassingFailure>)
    requires
        is_alias_path(path),
        failures.len() < 3,
    ensures
        client_run(program, seq![path], patient_events(failures)) == (ClientView::Connect {
            path,
            attempt: failures.len() as u32,
        }),
    decreases failures.len(),
{
    let events = patient_events(failures);
    if failures.len() == 0 {
        assert(client_run(program, seq![path], events.drop_last()) == (ClientView::OpenFile {
            path,
        }));
    } else {
        let front = failures.drop_last();
        lemma_patient_client(program, path, front);
        let failed = events.drop_last();
        assert(failed.drop_last() =~= patient_events(front));
        let last = passing_events(failures.last())[0];
        assert(failed.last() == last);
        assert(events.last() == ClientEventView::Waited);
        law_failed_attempt(front.len() as u32, last->hresult, last->error);
        assert(client_run(program, seq![path], failed) is Wait);
    }
}

/// A client that finds the pipe busy or missing at its first attempts, fewer than three times in
/// any order, and connects at the next one, writes the payload of its path; once that is sent in
/// full, it ends with success.
pub proof fn law_patient_client_sends(
    program: Seq<char>,
    path: Seq<char>,
    failures: Seq<PassingFailure>,
    pipe: isize,
    count: u32,
)
    requires
        is_alias_path(path),
        failures.len() < 3,
        count == payload_of(path).len(),
    ensures
        client_run(
            program,
            seq![path],
            patient_events(failures).push(ClientEventView::Connected { pipe }),
        ) == (ClientView::Write { pipe, payload: payload_of(path) }),
        client_run(
            program,
            seq![path],
            patient_events(failures).push(ClientEventView::Connected { pipe }).push(
                ClientEventView::Written { written: Ok(count) },
            ).push(ClientEventView::Closed),
        ) == (ClientView::Exit { code: 0, lines: seq![] }),
{
    lemma_patient_client(program, path, failures);
    let waited = patient_events(failures);
    let connected = waited.push(ClientEventView::Connected { pipe });
    let written = connected.push(ClientEventView::Written { written: Ok(count) });
    assert(connected.drop_last() =~= waited);
    assert(written.drop_last() =~= connected);
    assert(written.push(ClientEventView::Closed).drop_last() =~= written);
    assert(client_run(program, seq![path], written) == (ClientView::Close {
        pipe,
        failure: None,
    }));
}

} // verus!
