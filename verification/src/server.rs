//! The server loop: a client connects, its message is read, and the path in it is handed on.
use vstd::prelude::*;

use crate::plugin::AliasInserterPlugin;
use crate::protocol::{
    carries, decode_utf16le, is_text_payload, law_payload_text_unique, lone_surrogate_message,
    odd_length_message, MAX_PAYLOAD_BYTES,
};
use crate::reader::{read_step, MessageReader, ReadStep, ReadStepView};
use crate::text::{decimal, join, optional_view, push_decimal};
use crate::win32::{hresult_of, reports, ERROR_PIPE_CONNECTED, INVALID_HANDLE_VALUE};

verus! {

/// What the server has to do next.
pub enum ServerState {
    /// Create a pipe instance.
    Create,
    /// Wait for a client on the pipe.
    Connect { pipe: isize },
    /// Read from the pipe.
    Read { pipe: isize, reader: MessageReader },
    /// Disconnect the pipe from its client; `last` says that the server ends once it is closed.
    Disconnect { pipe: isize, received: Option<Vec<u8>>, last: bool },
    /// Close the pipe, which has been disconnected.
    Close { pipe: isize, received: Option<Vec<u8>>, last: bool },
    /// Insert the alias file at the path.
    Insert { path: String },
    /// Report a message that cannot be used.
    Refuse { reason: String },
    /// Nothing: the server has ended.
    Stop,
}

/// What came of it.
pub enum ServerEvent {
    /// A pipe was created, or `INVALID_HANDLE_VALUE` came back.
    Created { pipe: isize },
    /// The wait for a client ended, in the failure with that `HRESULT` if there was one.
    Connected { failure: Option<i32> },
    /// A read ended: the bytes it gave, and the `HRESULT` of its failure.
    Received { chunk: Vec<u8>, failure: Option<i32> },
    /// The pipe has been disconnected.
    Disconnected,
    /// The pipe has been closed.
    Closed,
    /// The path or the report has been dealt with.
    Handled,
}

/// What the server has to do next, over plain values.
pub enum ServerView {
    Create,
    Connect { pipe: isize },
    Read { pipe: isize, message: Seq<u8> },
    Disconnect { pipe: isize, received: Option<Seq<u8>>, last: bool },
    Close { pipe: isize, received: Option<Seq<u8>>, last: bool },
    Insert { path: Seq<char> },
    Refuse { reason: Seq<char> },
    Stop,
}

/// What came of it, over plain values.
pub enum ServerEventView {
    Created { pipe: isize },
    Connected { failure: Option<i32> },
    Received { chunk: Seq<u8>, failure: Option<i32> },
    Disconnected,
    Closed,
    Handled,
}

/// The bytes of a message that was received.
pub open spec fn received_view(received: Option<Vec<u8>>) -> Option<Seq<u8>> {
    match received {
        Some(message) => Some(message@),
        None => None,
    }
}

impl View for ServerState {
    type V = ServerView;

    open spec fn view(&self) -> ServerView {
        match *self {
            ServerState::Create => ServerView::Create,
            ServerState::Connect { pipe } => ServerView::Connect { pipe },
            ServerState::Read { pipe, reader } => ServerView::Read { pipe, message: reader@ },
            ServerState::Disconnect { pipe, received, last } => ServerView::Disconnect {
                pipe,
                received: received_view(received),
                last,
            },
            ServerState::Close { pipe, received, last } => ServerView::Close {
                pipe,
                received: received_view(received),
                last,
            },
            ServerState::Insert { path } => ServerView::Insert { path: path@ },
            ServerState::Refuse { reason } => ServerView::Refuse { reason: reason@ },
            ServerState::Stop => ServerView::Stop,
        }
    }
}

impl View for ServerEvent {
    type V = ServerEventView;

    open spec fn view(&self) -> ServerEventView {
        match *self {
            ServerEvent::Created { pipe } => ServerEventView::Created { pipe },
            ServerEvent::Connected { failure } => ServerEventView::Connected { failure },
            ServerEvent::Received { chunk, failure } => ServerEventView::Received {
                chunk: chunk@,
                failure,
            },
            ServerEvent::Disconnected => ServerEventView::Disconnected,
            ServerEvent::Closed => ServerEventView::Closed,
            ServerEvent::Handled => ServerEventView::Handled,
        }
    }
}

/// A client is there: the wait succeeded, or failed because the client was faster.
pub open spec fn client_connected(failure: Option<i32>) -> bool {
    failure is None || failure == Some(hresult_of(ERROR_PIPE_CONNECTED))
}

/// What is said of a message that is longer than a payload may be.
pub open spec fn too_long_reason(len: nat) -> Seq<char> {
    "ペイロードが上限を超えています（"@ + decimal(len) + " バイト、上限 "@ + decimal(
        MAX_PAYLOAD_BYTES as nat,
    ) + " バイト）"@
}

/// What is said of a message that is no text, for the reason `cause`.
pub open spec fn decode_failure_reason(cause: Seq<char>) -> Seq<char> {
    "UTF-16LE デコードに失敗しました: "@ + cause
}

/// A message that the server takes: not too long, and a text.
pub open spec fn is_acceptable(message: Seq<u8>) -> bool {
    message.len() <= MAX_PAYLOAD_BYTES && is_text_payload(message)
}

/// Why the server does not take a message.
pub open spec fn refusal_reason(message: Seq<u8>) -> Seq<char> {
    if message.len() > MAX_PAYLOAD_BYTES {
        too_long_reason(message.len())
    } else if message.len() % 2 != 0 {
        decode_failure_reason(odd_length_message(message.len()))
    } else {
        decode_failure_reason(lone_surrogate_message())
    }
}

/// The text that an acceptable message carries.
pub open spec fn message_text(message: Seq<u8>) -> Seq<char> {
    choose|text: Seq<char>| carries(message, text)
}

/// What the server does with what it received.
pub open spec fn after_message(received: Option<Seq<u8>>) -> ServerView {
    match received {
        None => ServerView::Create,
        Some(message) => if is_acceptable(message) {
            ServerView::Insert { path: message_text(message) }
        } else {
            ServerView::Refuse { reason: refusal_reason(message) }
        },
    }
}

/// The plugin while the worker reads from `pipe`.
pub open spec fn reading(plugin: AliasInserterPlugin, pipe: isize) -> AliasInserterPlugin {
    AliasInserterPlugin { active_pipe: Some(pipe), ..plugin }
}

/// The plugin while the worker does not read.
pub open spec fn not_reading(plugin: AliasInserterPlugin) -> AliasInserterPlugin {
    AliasInserterPlugin { active_pipe: None, ..plugin }
}

/// The event is one that the state can end in.
pub open spec fn server_event_fits(state: ServerView, event: ServerEventView) -> bool {
    match state {
        ServerView::Create => event is Created,
        ServerView::Connect { .. } => event is Connected,
        ServerView::Read { .. } => event is Received,
        ServerView::Disconnect { .. } => event is Disconnected,
        ServerView::Close { .. } => event is Closed,
        ServerView::Insert { .. } => event is Handled,
        ServerView::Refuse { .. } => event is Handled,
        ServerView::Stop => false,
    }
}

/// The server's next state, and the plugin at that point. An event that does not fit the state
/// changes nothing.
pub open spec fn server_step(
    state: ServerView,
    event: ServerEventView,
    plugin: AliasInserterPlugin,
) -> (ServerView, AliasInserterPlugin) {
    if !server_event_fits(state, event) {
        (state, plugin)
    } else {
        match state {
            ServerView::Create => if event->Created_pipe == INVALID_HANDLE_VALUE {
                (ServerView::Stop, plugin)
            } else {
                (ServerView::Connect { pipe: event->Created_pipe }, plugin)
            },
            ServerView::Connect { pipe } => if !client_connected(event->Connected_failure)
                || plugin.shutdown_flag {
                (ServerView::Disconnect { pipe, received: None, last: true }, plugin)
            } else {
                (ServerView::Read { pipe, message: seq![] }, reading(plugin, pipe))
            },
            ServerView::Read { pipe, message } => match read_step(
                message,
                event->chunk,
                event->Received_failure,
            ) {
                ReadStepView::Continue(so_far) => (
                    ServerView::Read { pipe, message: so_far },
                    plugin,
                ),
                ReadStepView::Finish(received) => (
                    ServerView::Disconnect { pipe, received, last: false },
                    not_reading(plugin),
                ),
            },
            ServerView::Disconnect { pipe, received, last } => (
                ServerView::Close { pipe, received, last },
                plugin,
            ),
            ServerView::Close { received, last, .. } => if last || plugin.shutdown_flag {
                (ServerView::Stop, plugin)
            } else {
                (after_message(received), plugin)
            },
            _ => (ServerView::Create, plugin),
        }
    }
}

/// Whether a client is there after the wait for one.
pub fn wait_for_client(failure: Option<i32>) -> (connected: bool)
    ensures
        connected == client_connected(failure),
        connected == (failure is None || failure->0 + 0x1_0000_0000 == 0x8007_0217),
{
    match failure {
        None => true,
        Some(hresult) => reports(hresult, ERROR_PIPE_CONNECTED),
    }
}

/// What is said when the server ends because it could not create its pipe.
pub open spec fn create_failure_message() -> Seq<char> {
    "Named Pipe インスタンスの作成に失敗しました。サーバーを終了します"@
}

/// What is said when the wait for a client failed, of which the system says `text`.
pub open spec fn wait_failure_message(text: Seq<char>) -> Seq<char> {
    "ConnectNamedPipe が失敗しました: "@ + text
}

/// What there is to say when `event` comes of `state` while a shutdown has begun: that the server
/// ends for that reason, if it is the shutdown that ends it.
pub open spec fn shutdown_notice(
    state: ServerView,
    event: ServerEventView,
    plugin: AliasInserterPlugin,
) -> Option<Seq<char>> {
    if !plugin.shutdown_flag {
        None
    } else {
        match (state, event) {
            (ServerView::Connect { .. }, ServerEventView::Connected { failure }) => {
                if client_connected(failure) {
                    Some("シャットダウンフラグを検出しました。ループを終了します"@)
                } else {
                    None
                }
            },
            (ServerView::Close { last: false, .. }, ServerEventView::Closed) => Some(
                "シャットダウンフラグを検出しました（ReadFile 後）。ループを終了します"@,
            ),
            _ => None,
        }
    }
}

/// What to report of the creation of a pipe that gave `pipe`: an error if that is no handle.
pub fn create_failure_report(pipe: isize) -> (report: Option<String>)
    ensures
        optional_view(report) == if pipe == INVALID_HANDLE_VALUE {
            Some(create_failure_message())
        } else {
            None
        },
        report is Some <==> pipe == -1,
        report matches Some(text) ==> text@
            == "Named Pipe インスタンスの作成に失敗しました。サーバーを終了します"@,
{
    if pipe == INVALID_HANDLE_VALUE {
        Some("Named Pipe インスタンスの作成に失敗しました。サーバーを終了します".to_string())
    } else {
        None
    }
}

/// What to report of a wait for a client, of whose failure the system says `text`: an error if
/// no client is there.
pub fn wait_failure_report(failure: Option<i32>, text: &str) -> (report: Option<String>)
    ensures
        optional_view(report) == if client_connected(failure) {
            None
        } else {
            Some(wait_failure_message(text@))
        },
        report is None <==> (failure is None || failure->0 + 0x1_0000_0000 == 0x8007_0217),
        report matches Some(said) ==> said@ == "ConnectNamedPipe が失敗しました: "@ + text@,
{
    if wait_for_client(failure) {
        None
    } else {
        Some(join("ConnectNamedPipe が失敗しました: ", text))
    }
}

/// The text of a message, or why the message is not taken.
pub fn accept_message(message: &[u8]) -> (text: Result<String, String>)
    ensures
        text is Ok <==> is_acceptable(message@),
        text matches Ok(found) ==> carries(message@, found@) && found@ == message_text(message@),
        text matches Err(reason) ==> reason@ == refusal_reason(message@),
        message@.len() > 32_768 ==> (text matches Err(reason) && reason@
            == "ペイロードが上限を超えています（"@ + decimal(message@.len()) + " バイト、上限 "@ + decimal(32_768)
            + " バイト）"@),
        message@.len() <= 32_768 && message@.len() % 2 != 0 ==> (text matches Err(reason)
            && reason@ == "UTF-16LE デコードに失敗しました: "@ + ("バイト数が奇数です: "@ + decimal(
            message@.len(),
        ))),
        message@.len() <= 32_768 && message@.len() % 2 == 0 ==> (text matches Err(reason)
            ==> reason@ == "UTF-16LE デコードに失敗しました: "@
            + "UTF-16 デコードエラー: invalid utf-16: lone surrogate found"@),
        forall|carried: Seq<char>| #[trigger]
            carries(message@, carried) && message@.len() <= 32_768 ==> (text matches Ok(found)
                && found@ == carried),
{
    if message.len() > MAX_PAYLOAD_BYTES {
        let mut reason = "ペイロードが上限を超えています（".to_string();
        push_decimal(&mut reason, message.len() as u64);
        reason.append(" バイト、上限 ");
        push_decimal(&mut reason, MAX_PAYLOAD_BYTES as u64);
        reason.append(" バイト）");
        return Err(reason);
    }
    match decode_utf16le(message) {
        Ok(text) => {
            proof {
                law_payload_text_unique(message@, text@, message_text(message@));
            }
            Ok(text)
        },
        Err(cause) => {
            Err(join("UTF-16LE デコードに失敗しました: ", cause.as_str()))
        },
    }
}

impl ServerState {
    /// The state in which the server starts.
    pub fn start() -> (state: ServerState)
        ensures
            state@ == ServerView::Create,
    {
        ServerState::Create
    }

    /// What there is to say of a shutdown when `event` comes of this.
    pub fn shutdown_report(&self, event: &ServerEvent, plugin: &AliasInserterPlugin) -> (report:
        Option<String>)
        ensures
            optional_view(report) == shutdown_notice(self@, event@, *plugin),
            report is Some <==> plugin.shutdown_flag && ((self is Connect && (*event
                matches ServerEvent::Connected { failure } && (failure is None || failure->0
                + 0x1_0000_0000 == 0x8007_0217))) || ((*self matches ServerState::Close {
                last,
                ..
            } && !last) && event is Closed)),
            report matches Some(said) ==> said@ == if self is Connect {
                "シャットダウンフラグを検出しました。ループを終了します"@
            } else {
                "シャットダウンフラグを検出しました（ReadFile 後）。ループを終了します"@
            },
    {
        if !plugin.shutdown_flag {
            return None;
        }
        match (self, event) {
            (ServerState::Connect { pipe: _ }, ServerEvent::Connected { failure }) => {
                if wait_for_client(*failure) {
                    Some("シャットダウンフラグを検出しました。ループを終了します".to_string())
                } else {
                    None
                }
            },
            (ServerState::Close { pipe: _, received: _, last: false }, ServerEvent::Closed) => Some(
                "シャットダウンフラグを検出しました（ReadFile 後）。ループを終了します".to_string(),
            ),
            _ => None,
        }
    }

    /// The state that follows once `event` came of this one.
    pub fn pipe_server_loop(self, event: ServerEvent, plugin: &mut AliasInserterPlugin) -> (next:
        ServerState)
        ensures
            (next@, *final(plugin)) == server_step(self@, event@, *old(plugin)),
    {
        match (self, event) {
            (ServerState::Create, ServerEvent::Created { pipe }) => {
                if pipe == INVALID_HANDLE_VALUE {
                    ServerState::Stop
                } else {
                    ServerState::Connect { pipe }
                }
            },
            (ServerState::Connect { pipe }, ServerEvent::Connected { failure }) => {
                if !wait_for_client(failure) || plugin.shutdown_flag {
                    ServerState::Disconnect { pipe, received: None, last: true }
                } else {
                    plugin.active_pipe = Some(pipe);
                    ServerState::Read { pipe, reader: MessageReader::new() }
                }
            },
            (ServerState::Read { pipe, reader }, ServerEvent::Received { chunk, failure }) => {
                match reader.read_pipe_data(chunk.as_slice(), failure) {
                    ReadStep::Continue(reader) => ServerState::Read { pipe, reader },
                    ReadStep::Finish(received) => {
                        plugin.active_pipe = None;
                        ServerState::Disconnect { pipe, received, last: false }
                    },
                }
            },
            (ServerState::Disconnect { pipe, received, last }, ServerEvent::Disconnected) => {
                ServerState::Close { pipe, received, last }
            },
            (ServerState::Close { pipe: _, received, last }, ServerEvent::Closed) => {
                if last || plugin.shutdown_flag {
                    ServerState::Stop
                } else {
                    match received {
                        None => ServerState::Create,
                        Some(message) => match accept_message(message.as_slice()) {
                            Ok(path) => ServerState::Insert { path },
                            Err(reason) => ServerState::Refuse { reason },
                        },
                    }
                }
            },
            (ServerState::Insert { path: _ }, ServerEvent::Handled) => ServerState::Create,
            (ServerState::Refuse { reason: _ }, ServerEvent::Handled) => ServerState::Create,
            (state, _) => state,
        }
    }
}

} // verus!
