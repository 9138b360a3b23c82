//! How the pipe is created by the server and opened by a client.
use vstd::prelude::*;

use crate::protocol::{wide_null, MAX_PAYLOAD_BYTES, PIPE_NAME};
use crate::text::{join, optional_view};
use crate::utf16::text_units;
use crate::win32::{
    FILE_ATTRIBUTE_NORMAL, FILE_FLAG_FIRST_PIPE_INSTANCE, FILE_SHARE_NONE, GENERIC_WRITE_ACCESS,
    INVALID_HANDLE_VALUE, OPEN_EXISTING, PIPE_ACCESS_INBOUND, PIPE_READMODE_MESSAGE,
    PIPE_TYPE_MESSAGE, PIPE_UNLIMITED_INSTANCES, PIPE_WAIT,
};

verus! {

/// The longest wait for the pipe before the dummy connection of a shutdown, in milliseconds.
pub const PIPE_CONNECT_TIMEOUT_MS: u32 = 5_000;

/// The arguments with which a pipe instance is created.
pub struct ServerPipe {
    /// The name in UTF-16, ended by a NUL.
    pub name: Vec<u16>,
    pub open_mode: u32,
    pub pipe_mode: u32,
    pub max_instances: u32,
    pub out_buffer_size: u32,
    pub in_buffer_size: u32,
    pub default_timeout_ms: u32,
    /// The security attributes hold this descriptor. Without one, none are given, and the
    /// system's default applies.
    pub descriptor: Option<usize>,
    /// The security attributes let child processes inherit the handle.
    pub inherit_handle: bool,
    /// What to warn of.
    pub warning: Option<String>,
}

/// The arguments with which a pipe instance is created, over plain values.
pub struct ServerPipeView {
    pub name: Seq<u16>,
    pub open_mode: u32,
    pub pipe_mode: u32,
    pub max_instances: u32,
    pub out_buffer_size: u32,
    pub in_buffer_size: u32,
    pub default_timeout_ms: u32,
    pub descriptor: Option<usize>,
    pub inherit_handle: bool,
    pub warning: Option<Seq<char>>,
}

impl View for ServerPipe {
    type V = ServerPipeView;

    open spec fn view(&self) -> ServerPipeView {
        ServerPipeView {
            name: self.name@,
            open_mode: self.open_mode,
            pipe_mode: self.pipe_mode,
            max_instances: self.max_instances,
            out_buffer_size: self.out_buffer_size,
            in_buffer_size: self.in_buffer_size,
            default_timeout_ms: self.default_timeout_ms,
            descriptor: self.descriptor,
            inherit_handle: self.inherit_handle,
            warning: optional_view(self.warning),
        }
    }
}

/// The arguments with which a client opens the pipe.
pub struct ClientPipe {
    /// The name in UTF-16, ended by a NUL.
    pub name: Vec<u16>,
    pub access: u32,
    pub share_mode: u32,
    pub disposition: u32,
    pub attributes: u32,
    /// How long to wait for a free instance, in milliseconds.
    pub wait_ms: u32,
}

/// The pipe's name as the system takes it.
pub open spec fn pipe_name_units() -> Seq<u16> {
    text_units(PIPE_NAME@).push(0u16)
}

/// What is said when the pipe is open to other users.
pub open spec fn no_descriptor_warning() -> Seq<char> {
    "セキュリティ記述子の構築に失敗しました。OS デフォルトのセキュリティ属性でパイプを作成します（同一システム上の別ユーザーからアクセス可能になる場合があります）"@
}

/// The arguments for a pipe instance: inbound only, refused if the pipe exists already, in
/// message mode, with buffers for the longest payload. It gets the descriptor if one could be
/// built, with a handle that is not inherited; otherwise there is a warning.
pub open spec fn server_pipe(descriptor: Option<usize>) -> ServerPipeView {
    ServerPipeView {
        name: pipe_name_units(),
        open_mode: PIPE_ACCESS_INBOUND | FILE_FLAG_FIRST_PIPE_INSTANCE,
        pipe_mode: PIPE_TYPE_MESSAGE | PIPE_READMODE_MESSAGE | PIPE_WAIT,
        max_instances: PIPE_UNLIMITED_INSTANCES,
        out_buffer_size: MAX_PAYLOAD_BYTES as u32,
        in_buffer_size: MAX_PAYLOAD_BYTES as u32,
        default_timeout_ms: 0,
        descriptor,
        inherit_handle: false,
        warning: if descriptor is None {
            Some(no_descriptor_warning())
        } else {
            None
        },
    }
}

/// Every pipe instance has the one name, ended by a NUL; takes data in only, and is refused if the
/// pipe exists already; is written and read message by message, with calls that wait; may have as
/// many instances as the system allows; and has buffers of 32,768 bytes. It gets the descriptor
/// that there is, with a handle that is not inherited, and a warning only without one.
pub proof fn law_server_pipe(descriptor: Option<usize>)
    ensures
        server_pipe(descriptor).name == text_units("\\\\.\\pipe\\aviutl2_alias_inserter"@).push(0u16),
        server_pipe(descriptor).open_mode == 0x0008_0001,
        server_pipe(descriptor).pipe_mode == 6,
        server_pipe(descriptor).max_instances == 255,
        server_pipe(descriptor).out_buffer_size == 32_768,
        server_pipe(descriptor).in_buffer_size == 32_768,
        server_pipe(descriptor).default_timeout_ms == 0,
        server_pipe(descriptor).descriptor == descriptor,
        !server_pipe(descriptor).inherit_handle,
        descriptor is Some ==> server_pipe(descriptor).warning is None,
        descriptor is None ==> server_pipe(descriptor).warning
            == Some("セキュリティ記述子の構築に失敗しました。OS デフォルトのセキュリティ属性でパイプを作成します（同一システム上の別ユーザーからアクセス可能になる場合があります）"@),
{
    assert(PIPE_ACCESS_INBOUND | FILE_FLAG_FIRST_PIPE_INSTANCE == 0x0008_0001u32) by (bit_vector);
    assert(PIPE_TYPE_MESSAGE | PIPE_READMODE_MESSAGE | PIPE_WAIT == 6u32) by (bit_vector);
}

/// The arguments for a pipe instance that gets `descriptor`, if that could be built.
pub fn create_server_pipe(descriptor: Option<usize>) -> (pipe: ServerPipe)
    ensures
        pipe@ == server_pipe(descriptor),
        pipe.descriptor == descriptor,
        !pipe.inherit_handle,
        pipe.warning is Some <==> descriptor is None,
        pipe.name@ == text_units("\\\\.\\pipe\\aviutl2_alias_inserter"@).push(0u16),
        pipe.open_mode == 0x0008_0001,
        pipe.pipe_mode == 6,
        pipe.max_instances == 255,
        pipe.out_buffer_size == 32_768,
        pipe.in_buffer_size == 32_768,
        pipe.default_timeout_ms == 0,
        pipe.warning matches Some(said) ==> said@
            == "セキュリティ記述子の構築に失敗しました。OS デフォルトのセキュリティ属性でパイプを作成します（同一システム上の別ユーザーからアクセス可能になる場合があります）"@,
{
    proof {
        law_server_pipe(descriptor);
    }
    let warning: Option<String> = match descriptor {
        Some(_) => None,
        None => Some(
            "セキュリティ記述子の構築に失敗しました。OS デフォルトのセキュリティ属性でパイプを作成します（同一システム上の別ユーザーからアクセス可能になる場合があります）".to_string(),
        ),
    };
    ServerPipe {
        name: wide_null(PIPE_NAME),
        open_mode: PIPE_ACCESS_INBOUND | FILE_FLAG_FIRST_PIPE_INSTANCE,
        pipe_mode: PIPE_TYPE_MESSAGE | PIPE_READMODE_MESSAGE | PIPE_WAIT,
        max_instances: PIPE_UNLIMITED_INSTANCES,
        out_buffer_size: MAX_PAYLOAD_BYTES as u32,
        in_buffer_size: MAX_PAYLOAD_BYTES as u32,
        default_timeout_ms: 0,
        descriptor,
        inherit_handle: false,
        warning,
    }
}

/// What is said of a creation that failed, of which the system says `error`.
pub open spec fn create_call_message(error: Seq<char>) -> Seq<char> {
    "CreateNamedPipeW が失敗しました: "@ + error
}

/// What to report of a creation that gave `pipe`, with `error` as the system's last error: an
/// error if that is no handle.
pub fn create_call_report(pipe: isize, error: &str) -> (report: Option<String>)
    ensures
        optional_view(report) == if pipe == INVALID_HANDLE_VALUE {
            Some(create_call_message(error@))
        } else {
            None
        },
        report is Some <==> pipe == -1,
        report matches Some(said) ==> said@ == "CreateNamedPipeW が失敗しました: "@ + error@,
{
    if pipe == INVALID_HANDLE_VALUE {
        Some(join("CreateNamedPipeW が失敗しました: ", error))
    } else {
        None
    }
}

/// The arguments for a client that writes to the pipe, if it exists, and waits `wait_ms` for
/// it.
pub fn open_client_pipe(wait_ms: u32) -> (pipe: ClientPipe)
    ensures
        pipe.name@ == pipe_name_units(),
        pipe.access == GENERIC_WRITE_ACCESS,
        pipe.share_mode == FILE_SHARE_NONE,
        pipe.disposition == OPEN_EXISTING,
        pipe.attributes == FILE_ATTRIBUTE_NORMAL,
        pipe.wait_ms == wait_ms,
        pipe.name@ == text_units("\\\\.\\pipe\\aviutl2_alias_inserter"@).push(0u16),
        pipe.access == 0x4000_0000,
        pipe.share_mode == 0,
        pipe.disposition == 3,
        pipe.attributes == 0x80,
{
    ClientPipe {
        name: wide_null(PIPE_NAME),
        access: GENERIC_WRITE_ACCESS,
        share_mode: FILE_SHARE_NONE,
        disposition: OPEN_EXISTING,
        attributes: FILE_ATTRIBUTE_NORMAL,
        wait_ms,
    }
}

/// The arguments for the dummy connection of a shutdown.
pub fn connect_shutdown_client() -> (pipe: ClientPipe)
    ensures
        pipe.name@ == pipe_name_units(),
        pipe.access == GENERIC_WRITE_ACCESS,
        pipe.share_mode == FILE_SHARE_NONE,
        pipe.disposition == OPEN_EXISTING,
        pipe.attributes == FILE_ATTRIBUTE_NORMAL,
        pipe.wait_ms == PIPE_CONNECT_TIMEOUT_MS,
        pipe.name@ == text_units("\\\\.\\pipe\\aviutl2_alias_inserter"@).push(0u16),
        pipe.access == 0x4000_0000,
        pipe.share_mode == 0,
        pipe.disposition == 3,
        pipe.attributes == 0x80,
        pipe.wait_ms == 5_000,
{
    open_client_pipe(PIPE_CONNECT_TIMEOUT_MS)
}

} // verus!
