//! What holds of the server loop over any run, with a shutdown at any point of it.
use vstd::prelude::*;

use crate::plugin::{
    first_shutdown_phase, fresh_plugin, registered, shutting_down, AliasInserterPlugin,
    ShutdownPhase,
};
use crate::protocol::{
    carries, law_carries, law_le_units_of_le_bytes, law_payload_carries_text,
    law_payload_round_trip, law_payload_text_unique, law_text_payload_carries, payload_of,
    text_before_null, MAX_PAYLOAD_BYTES,
};
use crate::server::{
    client_connected, is_acceptable, message_text, not_reading, refusal_reason,
    server_event_fits, server_step, ServerEventView, ServerView,
};
use crate::text::decimal;
use crate::utf16::text_units;
use crate::win32::{hresult_of, ERROR_MORE_DATA, INVALID_HANDLE_VALUE};

verus! {

/// The server together with what it shares with the rest of the plugin.
pub struct System {
    pub server: ServerView,
    pub plugin: AliasInserterPlugin,
}

/// What can happen to the two.
pub enum SystemStep {
    /// The worker carries out what the server has to do.
    Worker(ServerEventView),
    /// The host unloads the plugin.
    Shutdown,
}

/// The system once the worker has been started.
pub open spec fn system_start() -> System {
    System { server: ServerView::Create, plugin: registered(fresh_plugin()) }
}

/// The system after one step.
pub open spec fn system_step(system: System, step: SystemStep) -> System {
    match step {
        SystemStep::Worker(event) => {
            let next = server_step(system.server, event, system.plugin);
            System { server: next.0, plugin: next.1 }
        },
        SystemStep::Shutdown => System {
            server: system.server,
            plugin: shutting_down(system.plugin),
        },
    }
}

/// The system after a run of steps.
pub open spec fn system_run(steps: Seq<SystemStep>) -> System
    decreases steps.len(),
{
    if steps.len() == 0 {
        system_start()
    } else {
        system_step(system_run(steps.drop_last()), steps.last())
    }
}

/// The system after a run of steps from any point.
pub open spec fn system_run_from(system: System, steps: Seq<SystemStep>) -> System
    decreases steps.len(),
{
    if steps.len() == 0 {
        system
    } else {
        system_step(system_run_from(system, steps.drop_last()), steps.last())
    }
}

/// The pipe that the server holds.
pub open spec fn held_pipe(server: ServerView) -> Option<isize> {
    match server {
        ServerView::Connect { pipe } => Some(pipe),
        ServerView::Read { pipe, .. } => Some(pipe),
        ServerView::Disconnect { pipe, .. } => Some(pipe),
        ServerView::Close { pipe, .. } => Some(pipe),
        _ => None,
    }
}

/// The step creates a pipe.
pub open spec fn creates_pipe(system: System, step: SystemStep) -> bool {
    &&& system.server is Create
    &&& step matches SystemStep::Worker(ServerEventView::Created { pipe })
    &&& pipe != INVALID_HANDLE_VALUE
}

/// The step closes a pipe.
pub open spec fn closes_pipe(system: System, step: SystemStep) -> bool {
    system.server is Close && step == SystemStep::Worker(ServerEventView::Closed)
}

/// The number of pipes created in a run.
pub open spec fn pipes_created(steps: Seq<SystemStep>) -> nat
    decreases steps.len(),
{
    if steps.len() == 0 {
        0
    } else {
        pipes_created(steps.drop_last()) + if creates_pipe(
            system_run(steps.drop_last()),
            steps.last(),
        ) {
            1nat
        } else {
            0nat
        }
    }
}

/// The number of pipes closed in a run.
pub open spec fn pipes_closed(steps: Seq<SystemStep>) -> nat
    decreases steps.len(),
{
    if steps.len() == 0 {
        0
    } else {
        pipes_closed(steps.drop_last()) + if closes_pipe(
            system_run(steps.drop_last()),
            steps.last(),
        ) {
            1nat
        } else {
            0nat
        }
    }
}

/// Every pipe that is created is closed before the next one is created and before the server
/// ends: at any time one pipe more has been created than closed if the server holds one, and
/// otherwise as many.
pub proof fn law_every_pipe_is_closed(steps: Seq<SystemStep>)
    ensures
        pipes_created(steps) == pipes_closed(steps) + if held_pipe(system_run(steps).server) is Some {
            1nat
        } else {
            0nat
        },
    decreases steps.len(),
{
    if steps.len() > 0 {
        law_every_pipe_is_closed(steps.drop_last());
    }
}

/// The pipe that the server holds is the same from its creation to its closing.
pub proof fn law_held_pipe_stays(system: System, step: SystemStep)
    requires
        held_pipe(system.server) is Some,
        !closes_pipe(system, step),
    ensures
        held_pipe(system_step(system, step).server) == held_pipe(system.server),
{
}

/// The step disconnects a pipe.
pub open spec fn disconnects_pipe(system: System, step: SystemStep) -> bool {
    system.server is Disconnect && step == SystemStep::Worker(ServerEventView::Disconnected)
}

/// A pipe is closed only after it has been disconnected: the way to its closing is a
/// disconnect of that pipe, which keeps what was received.
pub proof fn law_disconnect_before_close(
    system: System,
    step: SystemStep,
    pipe: isize,
    received: Option<Seq<u8>>,
    last: bool,
)
    requires
        !(system.server is Close),
        system_step(system, step).server == (ServerView::Close { pipe, received, last }),
    ensures
        disconnects_pipe(system, step),
        system.server == (ServerView::Disconnect { pipe, received, last }),
{
}

/// The number of pipes disconnected in a run.
pub open spec fn pipes_disconnected(steps: Seq<SystemStep>) -> nat
    decreases steps.len(),
{
    if steps.len() == 0 {
        0
    } else {
        pipes_disconnected(steps.drop_last()) + if disconnects_pipe(
            system_run(steps.drop_last()),
            steps.last(),
        ) {
            1nat
        } else {
            0nat
        }
    }
}

/// Every pipe is disconnected once before it is closed: at any time one pipe more has been
/// disconnected than closed if the server is about to close one, and otherwise as many.
pub proof fn law_every_pipe_is_disconnected(steps: Seq<SystemStep>)
    ensures
        pipes_disconnected(steps) == pipes_closed(steps) + if system_run(steps).server is Close {
            1nat
        } else {
            0nat
        },
    decreases steps.len(),
{
    if steps.len() > 0 {
        law_every_pipe_is_disconnected(steps.drop_last());
    }
}

/// The active pipe is the one that the server reads from. While the server reads, it is
/// registered, unless a shutdown has taken it; while the server does not read, none is.
pub proof fn law_active_pipe_is_read(steps: Seq<SystemStep>)
    ensures
        match system_run(steps).plugin.active_pipe {
            Some(active) => system_run(steps).server matches ServerView::Read { pipe, .. } && pipe
                == active,
            None => system_run(steps).server is Read ==> system_run(steps).plugin.shutdown_flag,
        },
    decreases steps.len(),
{
    if steps.len() > 0 {
        law_active_pipe_is_read(steps.drop_last());
    }
}

/// A shutdown that begins at any point of a run first disconnects the pipe that the server reads
/// from, and no other: it disconnects one exactly if the server is reading and no shutdown has
/// begun before.
pub proof fn law_shutdown_disconnects_the_read_pipe(steps: Seq<SystemStep>)
    ensures
        first_shutdown_phase(system_run(steps).plugin) matches ShutdownPhase::Disconnect { pipe }
            ==> (system_run(steps).server matches ServerView::Read { pipe: read, .. } && read
            == pipe),
        system_run(steps).server is Read && !system_run(steps).plugin.shutdown_flag
            ==> first_shutdown_phase(system_run(steps).plugin) is Disconnect,
        system_run(steps).plugin.shutdown_flag ==> !(first_shutdown_phase(system_run(steps).plugin)
            is Disconnect),
    decreases steps.len(),
{
    law_active_pipe_is_read(steps);
    if steps.len() > 0 {
        law_shutdown_disconnects_the_read_pipe(steps.drop_last());
    }
}

/// A shutdown cannot be taken back.
pub proof fn law_shutdown_stays(system: System, steps: Seq<SystemStep>)
    requires
        system.plugin.shutdown_flag,
    ensures
        system_run_from(system, steps).plugin.shutdown_flag,
    decreases steps.len(),
{
    if steps.len() > 0 {
        law_shutdown_stays(system, steps.drop_last());
    }
}

/// Once a shutdown has begun, the server takes on no further request.
pub proof fn law_no_request_after_shutdown(system: System, steps: Seq<SystemStep>)
    requires
        system.plugin.shutdown_flag,
        !(system.server is Insert),
        !(system.server is Refuse),
    ensures
        !(system_run_from(system, steps).server is Insert),
        !(system_run_from(system, steps).server is Refuse),
    decreases steps.len(),
{
    if steps.len() > 0 {
        law_no_request_after_shutdown(system, steps.drop_last());
        law_shutdown_stays(system, steps.drop_last());
    }
}

/// Once a shutdown has begun, no further client is read from.
pub proof fn law_no_client_after_shutdown(system: System, steps: Seq<SystemStep>)
    requires
        system.plugin.shutdown_flag,
        !(system.server is Read),
    ensures
        !(system_run_from(system, steps).server is Read),
    decreases steps.len(),
{
    if steps.len() > 0 {
        law_no_client_after_shutdown(system, steps.drop_last());
        law_shutdown_stays(system, steps.drop_last());
    }
}

/// A shutdown frees a blocked worker: once its read fails because the pipe was disconnected, or
/// its wait ends because of the dummy connection, the pipe is disconnected and closed, and the
/// server ends.
pub proof fn law_blocked_worker_stops(system: System, event: ServerEventView)
    requires
        system.plugin.shutdown_flag,
        server_event_fits(system.server, event),
        system.server is Connect || (event matches ServerEventView::Received {
            failure: Some(hresult),
            ..
        } && hresult != hresult_of(ERROR_MORE_DATA)),
    ensures
        system_step(system, SystemStep::Worker(event)).server is Disconnect,
        system_run_from(
            system,
            seq![
                SystemStep::Worker(event),
                SystemStep::Worker(ServerEventView::Disconnected),
                SystemStep::Worker(ServerEventView::Closed),
            ],
        ).server is Stop,
{
    let steps = seq![
        SystemStep::Worker(event),
        SystemStep::Worker(ServerEventView::Disconnected),
        SystemStep::Worker(ServerEventView::Closed),
    ];
    let disconnected = steps.drop_last();
    let ended = disconnected.drop_last();
    assert(system_run_from(system, ended.drop_last()) == system);
    assert(system_run_from(system, ended) == system_step(system, SystemStep::Worker(event)));
    assert(system_run_from(system, disconnected).server is Close);
}

/// The steps that a server has left at most once a shutdown has begun, counting a message that
/// is being read as one.
pub open spec fn server_rank(server: ServerView) -> nat {
    match server {
        ServerView::Insert { .. } => 5,
        ServerView::Refuse { .. } => 5,
        ServerView::Create => 4,
        ServerView::Connect { .. } => 3,
        ServerView::Read { .. } => 3,
        ServerView::Disconnect { .. } => 2,
        ServerView::Close { .. } => 1,
        ServerView::Stop => 0,
    }
}

/// Once a shutdown has begun, every step that the server carries out brings it closer to its
/// end, but for a read after which more of the message waits.
pub proof fn law_shutdown_ends_server(system: System, event: ServerEventView)
    requires
        system.plugin.shutdown_flag,
        server_event_fits(system.server, event),
    ensures
        server_rank(system_step(system, SystemStep::Worker(event)).server) < server_rank(
            system.server,
        ) || (system.server is Read && system_step(system, SystemStep::Worker(event)).server
            is Read),
        server_rank(system.server) == 0 <==> system.server is Stop,
{
}

/// A server that has ended does nothing more.
pub proof fn law_stop_is_final(system: System, steps: Seq<SystemStep>)
    requires
        system.server is Stop,
    ensures
        system_run_from(system, steps).server is Stop,
    decreases steps.len(),
{
    if steps.len() > 0 {
        law_stop_is_final(system, steps.drop_last());
    }
}

/// The server goes on to the next client after every request, used or not: only a pipe that
/// cannot be created, a wait that fails and a shutdown end it.
pub proof fn law_server_goes_on(system: System, event: ServerEventView)
    requires
        !system.plugin.shutdown_flag,
        !(system.server is Stop),
        system_step(system, SystemStep::Worker(event)).server is Stop,
    ensures
        (event matches ServerEventView::Created { pipe } && pipe == INVALID_HANDLE_VALUE) || (
        system.server matches ServerView::Close { last: true, .. }),
{
}

/// The server is to end once the pipe it gives up is closed.
pub open spec fn ends_after_close(server: ServerView) -> bool {
    (server matches ServerView::Disconnect { last: true, .. }) || (server matches ServerView::Close {
        last: true,
        ..
    })
}

/// Only a failed wait or a shutdown makes the closing of a pipe the server's last.
pub proof fn law_last_close(system: System, event: ServerEventView)
    requires
        ends_after_close(system_step(system, SystemStep::Worker(event)).server),
    ensures
        ends_after_close(system.server) || system.plugin.shutdown_flag || (event
            matches ServerEventView::Connected { failure } && !client_connected(failure)),
{
}

/// Only an acceptable message is inserted, and what is inserted is its text.
pub proof fn law_inserted_path_was_sent(system: System, event: ServerEventView, path: Seq<char>)
    requires
        !(system.server is Insert),
        system_step(system, SystemStep::Worker(event)).server == (ServerView::Insert { path }),
    ensures
        system.server matches ServerView::Close { received: Some(message), .. } && is_acceptable(
            message,
        ) && path == message_text(message),
{
}

/// Reads that give `pieces`, after each of which more of the message waits.
pub open spec fn more_data_steps(pieces: Seq<Seq<u8>>) -> Seq<SystemStep> {
    Seq::new(
        pieces.len(),
        |i: int|
            SystemStep::Worker(
                ServerEventView::Received {
                    chunk: pieces[i],
                    failure: Some(hresult_of(ERROR_MORE_DATA)),
                },
            ),
    )
}

/// The events of a message that arrives in `pieces` and then `last_piece`.
pub open spec fn message_events(pieces: Seq<Seq<u8>>, last_piece: Seq<u8>) -> Seq<SystemStep> {
    more_data_steps(pieces).push(
        SystemStep::Worker(ServerEventView::Received { chunk: last_piece, failure: None }),
    ).push(SystemStep::Worker(ServerEventView::Disconnected)).push(
        SystemStep::Worker(ServerEventView::Closed),
    )
}

/// Reads after which more of the message waits add up in the server.
proof fn lemma_pieces_in_server(system: System, pipe: isize, pieces: Seq<Seq<u8>>)
    requires
        system.server == (ServerView::Read { pipe, message: seq![] }),
    ensures
        system_run_from(system, more_data_steps(pieces)) == (System {
            server: ServerView::Read { pipe, message: pieces.flatten() },
            plugin: system.plugin,
        }),
    decreases pieces.len(),
{
    if pieces.len() == 0 {
        assert(pieces.flatten() =~= seq![]);
    } else {
        let front = pieces.drop_last();
        lemma_pieces_in_server(system, pipe, front);
        assert(more_data_steps(pieces).drop_last() =~= more_data_steps(front));
        assert(pieces =~= front.push(pieces.last()));
        front.lemma_flatten_push(pieces.last());
    }
}

/// When the pipe of a message is about to be closed, the server has the whole message.
proof fn lemma_message_before_close(
    system: System,
    pipe: isize,
    pieces: Seq<Seq<u8>>,
    last_piece: Seq<u8>,
)
    requires
        system.server == (ServerView::Read { pipe, message: seq![] }),
        (pieces.flatten() + last_piece).len() > 0,
    ensures
        system_run_from(system, message_events(pieces, last_piece).drop_last()) == (System {
            server: ServerView::Close {
                pipe,
                received: Some(pieces.flatten() + last_piece),
                last: false,
            },
            plugin: not_reading(system.plugin),
        }),
{
    let disconnected = message_events(pieces, last_piece).drop_last();
    let read = disconnected.drop_last();
    assert(read.drop_last() =~= more_data_steps(pieces));
    lemma_pieces_in_server(system, pipe, pieces);
    assert(system_run_from(system, read) == (System {
        server: ServerView::Disconnect {
            pipe,
            received: Some(pieces.flatten() + last_piece),
            last: false,
        },
        plugin: not_reading(system.plugin),
    }));
}

/// What a client sends is what the server inserts: a path whose payload is not too long,
/// however the pipe cuts it up, comes out as the path that went in, up to its first NUL, if no
/// shutdown has begun.
pub proof fn law_sent_path_is_inserted(
    system: System,
    pipe: isize,
    text: Seq<char>,
    pieces: Seq<Seq<u8>>,
    last_piece: Seq<u8>,
)
    requires
        system.server == (ServerView::Read { pipe, message: seq![] }),
        !system.plugin.shutdown_flag,
        pieces.flatten() + last_piece == payload_of(text),
        payload_of(text).len() <= MAX_PAYLOAD_BYTES,
    ensures
        system_run_from(system, message_events(pieces, last_piece)) == (System {
            server: ServerView::Insert { path: text_before_null(text) },
            plugin: not_reading(system.plugin),
        }),
{
    let message = payload_of(text);
    law_payload_round_trip(text, message_text(message));
    law_payload_round_trip(text, text_before_null(text));
    assert(carries(message, text_before_null(text)));
    assert(message.len() > 0);
    lemma_message_before_close(system, pipe, pieces, last_piece);
}

/// A message that is not acceptable, however the pipe cuts it up, is answered with a report of
/// the reason, and nothing is inserted.
pub proof fn law_unusable_message_is_refused(
    system: System,
    pipe: isize,
    message: Seq<u8>,
    pieces: Seq<Seq<u8>>,
    last_piece: Seq<u8>,
)
    requires
        system.server == (ServerView::Read { pipe, message: seq![] }),
        !system.plugin.shutdown_flag,
        pieces.flatten() + last_piece == message,
        message.len() > 0,
        !is_acceptable(message),
    ensures
        system_run_from(system, message_events(pieces, last_piece)) == (System {
            server: ServerView::Refuse { reason: refusal_reason(message) },
            plugin: not_reading(system.plugin),
        }),
{
    lemma_message_before_close(system, pipe, pieces, last_piece);
}

/// A pipe that was created is waited on. Without one the server ends. Either way what is shared
/// stays as it is.
pub proof fn law_created_pipe_is_waited_on(pipe: isize, plugin: AliasInserterPlugin)
    ensures
        pipe != -1 ==> server_step(ServerView::Create, ServerEventView::Created { pipe }, plugin)
            == (ServerView::Connect { pipe }, plugin),
        pipe == -1 ==> server_step(ServerView::Create, ServerEventView::Created { pipe }, plugin)
            == (ServerView::Stop, plugin),
{
}

/// While no shutdown has begun, every wait that ends with a client there leads to the reading of
/// an empty message from that pipe, which is registered as the active one. A client is there if
/// the wait did not fail, or failed with the `HRESULT` `0x8007_0217` because the client was
/// faster.
pub proof fn law_connected_client_is_read(
    pipe: isize,
    failure: Option<i32>,
    plugin: AliasInserterPlugin,
)
    requires
        !plugin.shutdown_flag,
        failure is None || failure->0 + 0x1_0000_0000 == 0x8007_0217,
    ensures
        server_step(
            ServerView::Connect { pipe },
            ServerEventView::Connected { failure },
            plugin,
        ) == (
            ServerView::Read { pipe, message: Seq::<u8>::empty() },
            AliasInserterPlugin {
                shutdown_flag: false,
                worker_thread: plugin.worker_thread,
                active_pipe: Some(pipe),
            },
        ),
{
}

/// A wait that failed in any other way, and any wait that ends once a shutdown has begun, leads to
/// the disconnecting of that pipe as the server's last one, with nothing received.
pub proof fn law_wait_without_client_is_the_last(
    pipe: isize,
    failure: Option<i32>,
    plugin: AliasInserterPlugin,
)
    requires
        plugin.shutdown_flag || (failure matches Some(hresult) && hresult + 0x1_0000_0000
            != 0x8007_0217),
    ensures
        server_step(
            ServerView::Connect { pipe },
            ServerEventView::Connected { failure },
            plugin,
        ) == (ServerView::Disconnect { pipe, received: None, last: true }, plugin),
{
}

/// A read that leaves more waiting, as the `HRESULT` `0x8007_00EA` says, keeps the server reading
/// from the pipe, with what came added to what there was.
pub proof fn law_server_reads_on(
    pipe: isize,
    message: Seq<u8>,
    chunk: Seq<u8>,
    hresult: i32,
    plugin: AliasInserterPlugin,
)
    requires
        hresult + 0x1_0000_0000 == 0x8007_00EA,
    ensures
        server_step(
            ServerView::Read { pipe, message },
            ServerEventView::Received { chunk, failure: Some(hresult) },
            plugin,
        ) == (ServerView::Read { pipe, message: message + chunk }, plugin),
{
}

/// A read that ends otherwise ends the reading: the pipe is no longer active and is disconnected,
/// though it is not the last. The message is all that came if the read did not fail and
/// something came, and otherwise there is none.
pub proof fn law_reading_ends(
    pipe: isize,
    message: Seq<u8>,
    chunk: Seq<u8>,
    failure: Option<i32>,
    plugin: AliasInserterPlugin,
)
    requires
        failure matches Some(hresult) ==> hresult + 0x1_0000_0000 != 0x8007_00EA,
    ensures
        server_step(
            ServerView::Read { pipe, message },
            ServerEventView::Received { chunk, failure },
            plugin,
        ) == (
            ServerView::Disconnect {
                pipe,
                received: if failure is None && message.len() + chunk.len() > 0 {
                    Some(message + chunk)
                } else {
                    None
                },
                last: false,
            },
            AliasInserterPlugin {
                shutdown_flag: plugin.shutdown_flag,
                worker_thread: plugin.worker_thread,
                active_pipe: None,
            },
        ),
{
}

/// A pipe that has been disconnected is closed, and nothing else changes.
pub proof fn law_disconnected_pipe_is_closed(
    pipe: isize,
    received: Option<Seq<u8>>,
    last: bool,
    plugin: AliasInserterPlugin,
)
    ensures
        server_step(
            ServerView::Disconnect { pipe, received, last },
            ServerEventView::Disconnected,
            plugin,
        ) == (ServerView::Close { pipe, received, last }, plugin),
{
}

/// Once its pipe is closed, the server ends if that was the last one or a shutdown has begun,
/// whatever was received. Otherwise, if nothing was received, it goes on to the next client.
pub proof fn law_after_close(
    pipe: isize,
    received: Option<Seq<u8>>,
    last: bool,
    plugin: AliasInserterPlugin,
)
    ensures
        last || plugin.shutdown_flag ==> server_step(
            ServerView::Close { pipe, received, last },
            ServerEventView::Closed,
            plugin,
        ) == (ServerView::Stop, plugin),
        !last && !plugin.shutdown_flag && received is None ==> server_step(
            ServerView::Close { pipe, received, last },
            ServerEventView::Closed,
            plugin,
        ) == (ServerView::Create, plugin),
{
}

/// What the server does with a message that it has received, when the pipe is closed and neither
/// that nor a shutdown ends it. One of at most 32,768 bytes that carries a text, ended by a NUL or
/// not, leads to the insertion of exactly that text. Any other is refused, with a reason that
/// names its length if it is too long, or its odd length, or a lone surrogate.
pub proof fn law_message_is_used_or_refused(
    pipe: isize,
    message: Seq<u8>,
    text: Seq<char>,
    plugin: AliasInserterPlugin,
)
    requires
        !plugin.shutdown_flag,
    ensures
        ({
            let next = server_step(
                ServerView::Close { pipe, received: Some(message), last: false },
                ServerEventView::Closed,
                plugin,
            );
            &&& next.1 == plugin
            &&& message.len() <= 32_768 && carries(message, text) ==> next.0
                == (ServerView::Insert { path: text })
            &&& message.len() > 32_768 ==> next.0 == (ServerView::Refuse {
                reason: "ペイロードが上限を超えています（"@ + decimal(message.len()) + " バイト、上限 "@ + decimal(
                    32_768,
                ) + " バイト）"@,
            })
            &&& message.len() <= 32_768 && message.len() % 2 != 0 ==> next.0
                == (ServerView::Refuse {
                reason: "UTF-16LE デコードに失敗しました: "@ + ("バイト数が奇数です: "@ + decimal(message.len())),
            })
            &&& message.len() <= 32_768 && message.len() % 2 == 0 && (forall|other: Seq<char>|
                !carries(message, other)) ==> next.0 == (ServerView::Refuse {
                reason: "UTF-16LE デコードに失敗しました: "@
                    + "UTF-16 デコードエラー: invalid utf-16: lone surrogate found"@,
            })
        }),
{
    law_text_payload_carries(message);
    if carries(message, text) {
        law_payload_text_unique(message, text, message_text(message));
    }
}

/// A path that was inserted and a message that was reported are done with: the server goes on to
/// the next client.
pub proof fn law_handled_request_is_done(
    path: Seq<char>,
    reason: Seq<char>,
    plugin: AliasInserterPlugin,
)
    ensures
        server_step(ServerView::Insert { path }, ServerEventView::Handled, plugin) == (
            ServerView::Create,
            plugin,
        ),
        server_step(ServerView::Refuse { reason }, ServerEventView::Handled, plugin) == (
            ServerView::Create,
            plugin,
        ),
{
}

/// What came of something that the server did not have to do changes nothing.
pub proof fn law_unfit_server_event(
    state: ServerView,
    event: ServerEventView,
    plugin: AliasInserterPlugin,
)
    requires
        !(state is Create && event is Created),
        !(state is Connect && event is Connected),
        !(state is Read && event is Received),
        !(state is Disconnect && event is Disconnected),
        !(state is Close && event is Closed),
        !((state is Insert || state is Refuse) && event is Handled),
    ensures
        server_step(state, event, plugin) == (state, plugin),
{
}

/// For every message of at most 32,768 bytes that is not empty and carries a text, whether or not
/// a NUL ends it and however the pipe cuts it up: a server that has read it and closed the pipe
/// with no shutdown begun inserts exactly that text.
pub proof fn law_every_text_is_inserted(
    system: System,
    pipe: isize,
    message: Seq<u8>,
    text: Seq<char>,
    pieces: Seq<Seq<u8>>,
    last_piece: Seq<u8>,
)
    requires
        system.server == (ServerView::Read { pipe, message: Seq::<u8>::empty() }),
        !system.plugin.shutdown_flag,
        pieces.flatten() + last_piece == message,
        0 < message.len() <= 32_768,
        carries(message, text),
    ensures
        system_run_from(system, message_events(pieces, last_piece)).server
            == (ServerView::Insert { path: text }),
        !system_run_from(system, message_events(pieces, last_piece)).plugin.shutdown_flag,
        system_run_from(system, message_events(pieces, last_piece)).plugin.active_pipe is None,
{
    lemma_message_before_close(system, pipe, pieces, last_piece);
    law_message_is_used_or_refused(pipe, message, text, not_reading(system.plugin));
}

/// The units of a text without NUL, low byte first and with no NUL behind them, are read as that
/// text: the end of the message ends it too.
pub proof fn law_null_is_optional(text: Seq<char>)
    requires
        !text.contains('\0'),
    ensures
        carries(payload_of(text).take(payload_of(text).len() - 2), text),
        carries(payload_of(text), text),
{
    law_payload_carries_text(text);
    law_carries(payload_of(text), text);
    let units = text_units(text);
    let bytes = payload_of(text).take(payload_of(text).len() - 2);
    law_le_units_of_le_bytes(units.push(0u16));
    assert(payload_of(text).len() == 2 * units.len() + 2);
    assert forall|i: int| 0 <= i < units.len() implies #[trigger] units[i] != 0 && units[i]
        == bytes[2 * i] + 256 * bytes[2 * i + 1] by {
        assert(bytes[2 * i] == payload_of(text)[2 * i]);
        assert(bytes[2 * i + 1] == payload_of(text)[2 * i + 1]);
    }
    law_carries(bytes, text);
}

/// A shutdown raises the flag and takes the active pipe out; the worker is left as it is, and so
/// is what the server has to do.
pub proof fn law_shutdown_of_system(system: System)
    ensures
        system_step(system, SystemStep::Shutdown) == (System {
            server: system.server,
            plugin: AliasInserterPlugin {
                shutdown_flag: true,
                worker_thread: system.plugin.worker_thread,
                active_pipe: None,
            },
        }),
{
}

} // verus!
