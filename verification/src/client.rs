//! The command line client: it checks a path, connects to the plugin's pipe and sends the path.
use vstd::prelude::*;

use crate::alias_path::{has_object_extension, is_alias_path};
use crate::open_failure::{
    cannot_open, cannot_open_message, optional_failure_view, OpenFailure, OpenFailureKind,
    OpenFailureView,
};
use crate::protocol::{encode_utf16le, payload_of};
use crate::text::{decimal, join, join_three, optional_view, push_decimal};
use crate::win32::{hresult_of, reports, ERROR_FILE_NOT_FOUND, ERROR_PIPE_BUSY};

verus! {

/// The longest wait for a free pipe instance, in milliseconds.
pub const MAX_WAIT_MS: u32 = 5_000;

/// How often a connection is tried.
pub const MAX_RETRIES: u32 = 3;

/// How long to sleep while the plugin may still be starting, in milliseconds.
pub const START_PAUSE_MS: u64 = 500;

/// The exit code of success.
pub const EXIT_SUCCESS: i32 = 0;

/// The exit code for wrong arguments and for a file that cannot be used.
pub const EXIT_INVALID: i32 = 1;

/// The exit code for a connection or a transmission that failed.
pub const EXIT_NOT_SENT: i32 = 2;

/// How to wait before the next attempt to connect.
#[derive(Clone, Copy, Debug, PartialEq, Eq, Structural)]
pub enum RetryWait {
    /// Wait for a free pipe instance, at most that long.
    ForPipe { at_most_ms: u32 },
    /// Sleep that long.
    Sleep { pause_ms: u64 },
}

/// What to do after an attempt to connect that failed.
pub enum RetryDecision {
    /// Say `notice`, wait, and try again.
    Retry { notice: String, wait: RetryWait },
    /// Give up with `message`.
    GiveUp { message: String },
}

/// What to do after an attempt to connect that failed, over plain values.
pub enum RetryView {
    Retry { notice: Seq<char>, wait: RetryWait },
    GiveUp { message: Seq<char> },
}

impl View for RetryDecision {
    type V = RetryView;

    open spec fn view(&self) -> RetryView {
        match *self {
            RetryDecision::Retry { notice, wait } => RetryView::Retry { notice: notice@, wait },
            RetryDecision::GiveUp { message } => RetryView::GiveUp { message: message@ },
        }
    }
}

/// What is said after the attempt with the number `attempt`, counted from zero, when every
/// instance of the pipe is taken.
pub open spec fn busy_notice(attempt: u32) -> Seq<char> {
    "パイプが使用中です。待機してリトライします... ("@ + decimal((attempt + 1) as nat) + "/"@ + decimal(
        MAX_RETRIES as nat,
    ) + ")"@
}

/// What is said after that attempt when the pipe does not exist.
pub open spec fn missing_notice(attempt: u32) -> Seq<char> {
    "パイプが見つかりません。プラグインの起動を待機します... ("@ + decimal((attempt + 1) as nat) + "/"@
        + decimal(MAX_RETRIES as nat) + ")"@
}

/// What is said of a failure to connect that no retry can mend.
pub open spec fn connect_failure_message(error: Seq<char>) -> Seq<char> {
    "Named Pipe への接続に失敗しました: "@ + error
}

/// What is said when the last attempt to connect has failed.
pub open spec fn retries_exhausted_message(error: Seq<char>) -> Seq<char> {
    "Named Pipe への接続に "@ + decimal(MAX_RETRIES as nat) + " 回試みましたが失敗しました (最後のエラー: "@
        + error + ")"@
}

/// What to do after the attempt with the number `attempt`, counted from zero, failed with
/// `hresult`. The last attempt is final. Before it, a busy pipe is waited for and a missing one
/// slept for; any other failure is final too.
pub open spec fn retry_decision(attempt: u32, hresult: i32, error: Seq<char>) -> RetryView {
    if attempt + 1 >= MAX_RETRIES {
        RetryView::GiveUp { message: retries_exhausted_message(error) }
    } else if hresult == hresult_of(ERROR_PIPE_BUSY) {
        RetryView::Retry {
            notice: busy_notice(attempt),
            wait: RetryWait::ForPipe { at_most_ms: MAX_WAIT_MS },
        }
    } else if hresult == hresult_of(ERROR_FILE_NOT_FOUND) {
        RetryView::Retry {
            notice: missing_notice(attempt),
            wait: RetryWait::Sleep { pause_ms: START_PAUSE_MS },
        }
    } else {
        RetryView::GiveUp { message: connect_failure_message(error) }
    }
}

/// The message `text` with the number of the attempt and that of all attempts behind it.
fn counted(text: &str, attempt: u32) -> (notice: String)
    requires
        attempt + 1 < MAX_RETRIES,
    ensures
        notice@ == text@ + decimal((attempt + 1) as nat) + "/"@ + decimal(MAX_RETRIES as nat)
            + ")"@,
{
    let mut notice = text.to_string();
    push_decimal(&mut notice, (attempt + 1) as u64);
    notice.append("/");
    push_decimal(&mut notice, MAX_RETRIES as u64);
    notice.append(")");
    notice
}

/// What to do after the attempt to connect with the number `attempt`, counted from zero, failed
/// with `hresult`, of which the system says `error`.
pub fn connect_with_retry(attempt: u32, hresult: i32, error: &str) -> (decision: RetryDecision)
    ensures
        decision@ == retry_decision(attempt, hresult, error@),
{
    if attempt >= MAX_RETRIES - 1 {
        let mut message = "Named Pipe への接続に ".to_string();
        push_decimal(&mut message, MAX_RETRIES as u64);
        message.append(" 回試みましたが失敗しました (最後のエラー: ");
        message.append(error);
        message.append(")");
        RetryDecision::GiveUp { message }
    } else if reports(hresult, ERROR_PIPE_BUSY) {
        RetryDecision::Retry {
            notice: counted("パイプが使用中です。待機してリトライします... (", attempt),
            wait: RetryWait::ForPipe { at_most_ms: MAX_WAIT_MS },
        }
    } else if reports(hresult, ERROR_FILE_NOT_FOUND) {
        RetryDecision::Retry {
            notice: counted("パイプが見つかりません。プラグインの起動を待機します... (", attempt),
            wait: RetryWait::Sleep { pause_ms: START_PAUSE_MS },
        }
    } else {
        RetryDecision::GiveUp {
            message: join("Named Pipe への接続に失敗しました: ", error),
        }
    }
}

/// What is said of a path without the alias extension.
pub open spec fn wrong_extension_message(path: Seq<char>) -> Seq<char> {
    "'.object' 拡張子のファイルを指定してください: "@ + path
}

/// What is said of a file that could not be opened.
pub open spec fn unusable_file_message(path: Seq<char>, failure: OpenFailureView) -> Seq<char> {
    match failure.kind {
        OpenFailureKind::NotFound => "ファイルが見つかりません: "@ + path,
        OpenFailureKind::PermissionDenied => "ファイルへのアクセスが拒否されました: "@ + path,
        OpenFailureKind::Other => cannot_open_message(path, failure.text),
    }
}

/// The first half of the check of a path: it has to end in the alias extension.
pub fn validate_path_extension(path: &str) -> (checked: Result<(), String>)
    ensures
        checked is Ok <==> is_alias_path(path@),
        checked matches Err(message) ==> message@ == wrong_extension_message(path@),
        checked matches Err(message) ==> message@
            == "'.object' 拡張子のファイルを指定してください: "@ + path@,
{
    if has_object_extension(path) {
        Ok(())
    } else {
        Err(join("'.object' 拡張子のファイルを指定してください: ", path))
    }
}

/// The second half of the check of a path: the file has to open.
pub fn validate_path_opened(path: &str, failure: Option<OpenFailure>) -> (checked: Result<
    (),
    String,
>)
    ensures
        checked is Ok <==> failure is None,
        checked matches Err(message) ==> message@ == unusable_file_message(path@, failure->0@),
        checked matches Err(message) ==> message@ == match failure->0.kind {
            OpenFailureKind::NotFound => "ファイルが見つかりません: "@ + path@,
            OpenFailureKind::PermissionDenied => "ファイルへのアクセスが拒否されました: "@ + path@,
            OpenFailureKind::Other => "ファイルを開けませんでした: "@ + path@ + " ("@
                + failure->0.text@ + ")"@,
        },
{
    match failure {
        None => Ok(()),
        Some(failure) => Err(
            match failure.kind {
                OpenFailureKind::NotFound => join("ファイルが見つかりません: ", path),
                OpenFailureKind::PermissionDenied => join(
                    "ファイルへのアクセスが拒否されました: ",
                    path,
                ),
                OpenFailureKind::Other => cannot_open(path, failure.text.as_str()),
            },
        ),
    }
}

/// What is said of a transmission that failed.
pub open spec fn write_failure_message(error: Seq<char>) -> Seq<char> {
    "WriteFile が失敗しました: "@ + error
}

/// What is said of a transmission that was cut short.
pub open spec fn short_write_message(expected: nat, actual: nat) -> Seq<char> {
    "送信バイト数が一致しません: 期待="@ + decimal(expected) + ", 実際="@ + decimal(actual)
}

/// The failure of a transmission of `expected` bytes, if it is one: the system reports an
/// error, or another number of bytes than was to be sent.
pub open spec fn write_failure(expected: nat, written: Result<u32, Seq<char>>) -> Option<
    Seq<char>,
> {
    match written {
        Err(error) => Some(write_failure_message(error)),
        Ok(actual) => if actual != expected {
            Some(short_write_message(expected, actual as nat))
        } else {
            None
        },
    }
}

/// How many bytes were sent, or what the system says about the error.
pub open spec fn written_view(written: Result<u32, String>) -> Result<u32, Seq<char>> {
    match written {
        Ok(count) => Ok(count),
        Err(error) => Err(error@),
    }
}

/// The failure of a transmission of `expected` bytes, if it is one.
pub fn send_path_to_plugin(expected: usize, written: Result<u32, String>) -> (failure: Option<
    String,
>)
    ensures
        optional_view(failure) == write_failure(expected as nat, written_view(written)),
        failure is None <==> (written matches Ok(actual) && actual == expected),
        failure matches Some(message) ==> message@ == match written {
            Ok(actual) => "送信バイト数が一致しません: 期待="@ + decimal(expected as nat) + ", 実際="@
                + decimal(actual as nat),
            Err(error) => "WriteFile が失敗しました: "@ + error@,
        },
{
    match written {
        Err(error) => Some(join("WriteFile が失敗しました: ", error.as_str())),
        Ok(actual) => {
            if actual as u64 != expected as u64 {
                let mut message = "送信バイト数が一致しません: 期待=".to_string();
                push_decimal(&mut message, expected as u64);
                message.append(", 実際=");
                push_decimal(&mut message, actual as u64);
                Some(message)
            } else {
                None
            }
        },
    }
}

/// What the client has to do next.
pub enum ClientState {
    /// Open the file, and close it again.
    OpenFile { path: String },
    /// Connect to the pipe. Attempts are counted from zero.
    Connect { path: String, attempt: u32 },
    /// Say `notice` and wait before the next attempt.
    Wait { path: String, next_attempt: u32, notice: String, wait: RetryWait },
    /// Write the payload to the pipe.
    Write { pipe: isize, payload: Vec<u8> },
    /// Close the pipe. The failure of the transmission, if it is one.
    Close { pipe: isize, failure: Option<String> },
    /// Say `lines` and end with `code`.
    Exit { code: i32, lines: Vec<String> },
}

/// What came of it.
pub enum ClientEvent {
    /// The file was opened, or not.
    Opened { failure: Option<OpenFailure> },
    /// The connection was made.
    Connected { pipe: isize },
    /// The connection failed; what the system says about it.
    ConnectFailed { hresult: i32, error: String },
    /// The wait is over.
    Waited,
    /// The transmission is over: how many bytes were sent, or the error.
    Written { written: Result<u32, String> },
    /// The pipe is closed.
    Closed,
}

/// What the client has to do next, over plain values.
pub enum ClientView {
    OpenFile { path: Seq<char> },
    Connect { path: Seq<char>, attempt: u32 },
    Wait { path: Seq<char>, next_attempt: u32, notice: Seq<char>, wait: RetryWait },
    Write { pipe: isize, payload: Seq<u8> },
    Close { pipe: isize, failure: Option<Seq<char>> },
    Exit { code: i32, lines: Seq<Seq<char>> },
}

/// What came of it, over plain values.
pub enum ClientEventView {
    Opened { failure: Option<OpenFailureView> },
    Connected { pipe: isize },
    ConnectFailed { hresult: i32, error: Seq<char> },
    Waited,
    Written { written: Result<u32, Seq<char>> },
    Closed,
}

/// What the lines say.
pub open spec fn lines_view(lines: Seq<String>) -> Seq<Seq<char>> {
    lines.map_values(|line: String| line@)
}

impl View for ClientState {
    type V = ClientView;

    open spec fn view(&self) -> ClientView {
        match *self {
            ClientState::OpenFile { path } => ClientView::OpenFile { path: path@ },
            ClientState::Connect { path, attempt } => ClientView::Connect { path: path@, attempt },
            ClientState::Wait { path, next_attempt, notice, wait } => ClientView::Wait {
                path: path@,
                next_attempt,
                notice: notice@,
                wait,
            },
            ClientState::Write { pipe, payload } => ClientView::Write { pipe, payload: payload@ },
            ClientState::Close { pipe, failure } => ClientView::Close {
                pipe,
                failure: optional_view(failure),
            },
            ClientState::Exit { code, lines } => ClientView::Exit {
                code,
                lines: lines_view(lines@),
            },
        }
    }
}

impl View for ClientEvent {
    type V = ClientEventView;

    open spec fn view(&self) -> ClientEventView {
        match *self {
            ClientEvent::Opened { failure } => ClientEventView::Opened {
                failure: optional_failure_view(failure),
            },
            ClientEvent::Connected { pipe } => ClientEventView::Connected { pipe },
            ClientEvent::ConnectFailed { hresult, error } => ClientEventView::ConnectFailed {
                hresult,
                error: error@,
            },
            ClientEvent::Waited => ClientEventView::Waited,
            ClientEvent::Written { written } => ClientEventView::Written {
                written: written_view(written),
            },
            ClientEvent::Closed => ClientEventView::Closed,
        }
    }
}

/// What is said of wrong arguments.
pub open spec fn usage_lines(program: Seq<char>) -> Seq<Seq<char>> {
    seq![
        "使用方法: "@ + program + " <.objectファイルの絶対パス>"@,
        "例: "@ + program + " \"C:\\エイリアス\\テキスト.object\""@,
    ]
}

/// The end with `code` after a failure.
pub open spec fn exit_with(code: i32, message: Seq<char>) -> ClientView {
    ClientView::Exit { code, lines: seq!["エラー: "@ + message] }
}

/// The first thing to do: with exactly one argument that is an alias path, open the file.
pub open spec fn client_start(program: Seq<char>, arguments: Seq<Seq<char>>) -> ClientView {
    if arguments.len() != 1 {
        ClientView::Exit { code: EXIT_INVALID, lines: usage_lines(program) }
    } else if is_alias_path(arguments[0]) {
        ClientView::OpenFile { path: arguments[0] }
    } else {
        exit_with(EXIT_INVALID, wrong_extension_message(arguments[0]))
    }
}

/// The event is one that the state can end in.
pub open spec fn client_event_fits(state: ClientView, event: ClientEventView) -> bool {
    match state {
        ClientView::OpenFile { .. } => event is Opened,
        ClientView::Connect { .. } => event is Connected || event is ConnectFailed,
        ClientView::Wait { .. } => event is Waited,
        ClientView::Write { .. } => event is Written,
        ClientView::Close { .. } => event is Closed,
        ClientView::Exit { .. } => false,
    }
}

/// What the client has to do next. An event that does not fit the state changes nothing.
pub open spec fn client_step(state: ClientView, event: ClientEventView) -> ClientView {
    if !client_event_fits(state, event) {
        state
    } else {
        match state {
            ClientView::OpenFile { path } => match event->Opened_failure {
                None => ClientView::Connect { path, attempt: 0 },
                Some(failure) => exit_with(EXIT_INVALID, unusable_file_message(path, failure)),
            },
            ClientView::Connect { path, attempt } => match event {
                ClientEventView::Connected { pipe } => ClientView::Write {
                    pipe,
                    payload: payload_of(path),
                },
                _ => match retry_decision(attempt, event->hresult, event->error) {
                    RetryView::Retry { notice, wait } => ClientView::Wait {
                        path,
                        next_attempt: (attempt + 1) as u32,
                        notice,
                        wait,
                    },
                    RetryView::GiveUp { message } => exit_with(EXIT_NOT_SENT, message),
                },
            },
            ClientView::Wait { path, next_attempt, .. } => ClientView::Connect {
                path,
                attempt: next_attempt,
            },
            ClientView::Write { pipe, payload } => ClientView::Close {
                pipe,
                failure: write_failure(payload.len(), event->written),
            },
            ClientView::Close { failure: Some(message), .. } => exit_with(EXIT_NOT_SENT, message),
            _ => ClientView::Exit { code: EXIT_SUCCESS, lines: seq![] },
        }
    }
}

/// The end with `code` after a failure.
fn exit_after(code: i32, message: &str) -> (state: ClientState)
    ensures
        state@ == exit_with(code, message@),
{
    let mut lines: Vec<String> = Vec::new();
    lines.push(join("エラー: ", message));
    let state = ClientState::Exit { code, lines };
    assert(lines_view(lines@) =~= seq!["エラー: "@ + message@]);
    state
}

impl ClientState {
    /// The first thing to do for the client `program` with `arguments`.
    pub fn start(program: &str, arguments: &[String]) -> (state: ClientState)
        ensures
            state@ == client_start(program@, lines_view(arguments@)),
    {
        if arguments.len() != 1 {
            let mut lines: Vec<String> = Vec::new();
            lines.push(join_three("使用方法: ", program, " <.objectファイルの絶対パス>"));
            lines.push(join_three("例: ", program, " \"C:\\エイリアス\\テキスト.object\""));
            assert(lines_view(lines@) =~= usage_lines(program@));
            return ClientState::Exit { code: EXIT_INVALID, lines };
        }
        let path: &String = &arguments[0];
        match validate_path_extension(path.as_str()) {
            Ok(_) => ClientState::OpenFile { path: path.clone() },
            Err(message) => exit_after(EXIT_INVALID, message.as_str()),
        }
    }

    /// What the client has to do once `event` came of this.
    pub fn advance(self, event: ClientEvent) -> (next: ClientState)
        ensures
            next@ == client_step(self@, event@),
    {
        match (self, event) {
            (ClientState::OpenFile { path }, ClientEvent::Opened { failure }) => {
                match validate_path_opened(path.as_str(), failure) {
                    Ok(_) => ClientState::Connect { path, attempt: 0 },
                    Err(message) => exit_after(EXIT_INVALID, message.as_str()),
                }
            },
            (ClientState::Connect { path, attempt: _ }, ClientEvent::Connected { pipe }) => {
                ClientState::Write { pipe, payload: encode_utf16le(path.as_str()) }
            },
            (
                ClientState::Connect { path, attempt },
                ClientEvent::ConnectFailed { hresult, error },
            ) => match connect_with_retry(attempt, hresult, error.as_str()) {
                RetryDecision::Retry { notice, wait } => ClientState::Wait {
                    path,
                    next_attempt: attempt + 1,
                    notice,
                    wait,
                },
                RetryDecision::GiveUp { message } => exit_after(EXIT_NOT_SENT, message.as_str()),
            },
            (
                ClientState::Wait { path, next_attempt, notice: _, wait: _ },
                ClientEvent::Waited,
            ) => ClientState::Connect { path, attempt: next_attempt },
            (ClientState::Write { pipe, payload }, ClientEvent::Written { written }) => {
                ClientState::Close { pipe, failure: send_path_to_plugin(payload.len(), written) }
            },
            (ClientState::Close { pipe: _, failure }, ClientEvent::Closed) => match failure {
                None => {
                    let lines: Vec<String> = Vec::new();
                    assert(lines_view(lines@) =~= seq![]);
                    ClientState::Exit { code: EXIT_SUCCESS, lines }
                },
                Some(message) => exit_after(EXIT_NOT_SENT, message.as_str()),
            },
            (state, _) => state,
        }
    }
}

} // verus!
