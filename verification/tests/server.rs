use aviutl2_alias_inserter::creation::{CreationEvent, CreationState};
use aviutl2_alias_inserter::plugin::{
    worker_report, AliasInserterPlugin, ShutdownEvent, ShutdownPhase,
};
use aviutl2_alias_inserter::protocol::encode_utf16le;
use aviutl2_alias_inserter::reader::{MessageReader, ReadStep};
use aviutl2_alias_inserter::security::{owner_sddl, DescriptorEvent, DescriptorState};
use aviutl2_alias_inserter::server::{
    accept_message, create_failure_report, wait_failure_report, wait_for_client, ServerEvent,
    ServerState,
};

const MORE_DATA: i32 = 0x8007_00EAu32 as i32;
const PIPE_CONNECTED: i32 = 0x8007_0217u32 as i32;
const BROKEN_PIPE: i32 = 0x8007_006Du32 as i32;

fn started() -> AliasInserterPlugin {
    let mut plugin = AliasInserterPlugin::new();
    plugin.register();
    plugin
}

/// The server up to the read of the first client.
fn reading(plugin: &mut AliasInserterPlugin) -> ServerState {
    ServerState::start()
        .pipe_server_loop(ServerEvent::Created { pipe: 7 }, plugin)
        .pipe_server_loop(ServerEvent::Connected { failure: None }, plugin)
}

fn received(chunk: &[u8], failure: Option<i32>) -> ServerEvent {
    ServerEvent::Received {
        chunk: chunk.to_vec(),
        failure,
    }
}

#[test]
fn message_in_one_piece() {
    match MessageReader::new().read_pipe_data(&[1, 2, 3], None) {
        ReadStep::Finish(message) => assert_eq!(message, Some(vec![1, 2, 3])),
        ReadStep::Continue(_) => panic!("the message is complete"),
    }
}

#[test]
fn message_in_pieces() {
    let mut reader = MessageReader::new();
    for chunk in [&[1u8, 2][..], &[], &[3]] {
        reader = match reader.read_pipe_data(chunk, Some(MORE_DATA)) {
            ReadStep::Continue(reader) => reader,
            ReadStep::Finish(_) => panic!("more data waits"),
        };
    }
    match reader.read_pipe_data(&[4], None) {
        ReadStep::Finish(message) => assert_eq!(message, Some(vec![1, 2, 3, 4])),
        ReadStep::Continue(_) => panic!("the message is complete"),
    }
}

#[test]
fn empty_and_broken_messages() {
    assert!(matches!(
        MessageReader::new().read_pipe_data(&[], None),
        ReadStep::Finish(None)
    ));
    assert!(matches!(
        MessageReader::new().read_pipe_data(&[1], Some(BROKEN_PIPE)),
        ReadStep::Finish(None)
    ));
}

#[test]
fn client_that_was_faster_is_connected() {
    assert!(wait_for_client(None));
    assert!(wait_for_client(Some(PIPE_CONNECTED)));
    assert!(!wait_for_client(Some(BROKEN_PIPE)));
    assert!(!wait_for_client(Some(535)));
}

#[test]
fn sent_path_is_inserted() {
    let mut plugin = started();
    let state = reading(&mut plugin);
    assert_eq!(plugin.active_pipe, Some(7));
    let payload = encode_utf16le("C:\\エイリアス\\テキスト.object");
    let (front, back) = payload.split_at(9);
    let state = state
        .pipe_server_loop(received(front, Some(MORE_DATA)), &mut plugin)
        .pipe_server_loop(received(back, None), &mut plugin);
    assert!(matches!(state, ServerState::Disconnect { pipe: 7, last: false, .. }));
    assert_eq!(plugin.active_pipe, None);
    let state = state
        .pipe_server_loop(ServerEvent::Disconnected, &mut plugin)
        .pipe_server_loop(ServerEvent::Closed, &mut plugin);
    match &state {
        ServerState::Insert { path } => assert_eq!(path, "C:\\エイリアス\\テキスト.object"),
        _ => panic!("the path is inserted"),
    }
    let state = state.pipe_server_loop(ServerEvent::Handled, &mut plugin);
    assert!(matches!(state, ServerState::Create));
}

#[test]
fn unusable_messages_are_refused() {
    for (message, reason) in [
        (
            vec![0x41u8, 0, 0x42],
            "UTF-16LE デコードに失敗しました: バイト数が奇数です: 3",
        ),
        (
            vec![0x00, 0xD8],
            "UTF-16LE デコードに失敗しました: UTF-16 デコードエラー: invalid utf-16: lone surrogate found",
        ),
        (
            vec![0x41; 32_770],
            "ペイロードが上限を超えています（32770 バイト、上限 32768 バイト）",
        ),
    ] {
        let mut plugin = started();
        let state = reading(&mut plugin)
            .pipe_server_loop(received(&message, None), &mut plugin)
            .pipe_server_loop(ServerEvent::Disconnected, &mut plugin)
            .pipe_server_loop(ServerEvent::Closed, &mut plugin);
        match &state {
            ServerState::Refuse { reason: said } => assert_eq!(said, reason),
            _ => panic!("the message is refused"),
        }
        let state = state.pipe_server_loop(ServerEvent::Handled, &mut plugin);
        assert!(matches!(state, ServerState::Create));
    }
}

#[test]
fn longest_message_is_accepted() {
    let text = "a".repeat(16_383);
    let payload = encode_utf16le(&text);
    assert_eq!(payload.len(), 32_768);
    assert_eq!(accept_message(&payload).unwrap(), text);
    assert!(accept_message(&encode_utf16le(&"a".repeat(16_384))).is_err());
}

#[test]
fn nothing_received_is_no_request() {
    for event in [received(&[], None), received(&[1, 0], Some(BROKEN_PIPE))] {
        let mut plugin = started();
        let state = reading(&mut plugin)
            .pipe_server_loop(event, &mut plugin)
            .pipe_server_loop(ServerEvent::Disconnected, &mut plugin)
            .pipe_server_loop(ServerEvent::Closed, &mut plugin);
        assert!(matches!(state, ServerState::Create));
    }
}

#[test]
fn server_ends_without_a_pipe() {
    let mut plugin = started();
    let state =
        ServerState::start().pipe_server_loop(ServerEvent::Created { pipe: -1 }, &mut plugin);
    assert!(matches!(state, ServerState::Stop));
}

#[test]
fn server_ends_after_a_failed_wait() {
    let mut plugin = started();
    let state = ServerState::start()
        .pipe_server_loop(ServerEvent::Created { pipe: 3 }, &mut plugin)
        .pipe_server_loop(ServerEvent::Connected { failure: Some(BROKEN_PIPE) }, &mut plugin);
    assert!(matches!(
        state,
        ServerState::Disconnect { pipe: 3, received: None, last: true }
    ));
    let state = state
        .pipe_server_loop(ServerEvent::Disconnected, &mut plugin)
        .pipe_server_loop(ServerEvent::Closed, &mut plugin);
    assert!(matches!(state, ServerState::Stop));
    assert!(matches!(
        state.pipe_server_loop(ServerEvent::Handled, &mut plugin),
        ServerState::Stop
    ));
}

#[test]
fn shutdown_while_reading_drops_the_message() {
    let mut plugin = started();
    let state = reading(&mut plugin);
    assert_eq!(
        plugin.begin_shutdown(),
        ShutdownPhase::Disconnect { pipe: 7 }
    );
    let state = state
        .pipe_server_loop(received(&encode_utf16le("a.object"), None), &mut plugin)
        .pipe_server_loop(ServerEvent::Disconnected, &mut plugin)
        .pipe_server_loop(ServerEvent::Closed, &mut plugin);
    assert!(matches!(state, ServerState::Stop));
}

#[test]
fn shutdown_while_waiting_ends_the_server() {
    let mut plugin = started();
    let state =
        ServerState::start().pipe_server_loop(ServerEvent::Created { pipe: 7 }, &mut plugin);
    assert_eq!(plugin.begin_shutdown(), ShutdownPhase::WaitForPipe);
    let state = state.pipe_server_loop(ServerEvent::Connected { failure: None }, &mut plugin);
    assert_eq!(plugin.active_pipe, None);
    assert!(matches!(state, ServerState::Disconnect { pipe: 7, last: true, .. }));
    let state = state
        .pipe_server_loop(ServerEvent::Disconnected, &mut plugin)
        .pipe_server_loop(ServerEvent::Closed, &mut plugin);
    assert!(matches!(state, ServerState::Stop));
}

#[test]
fn event_out_of_place_changes_nothing() {
    let mut plugin = started();
    let state = ServerState::start()
        .pipe_server_loop(ServerEvent::Disconnected, &mut plugin)
        .pipe_server_loop(ServerEvent::Closed, &mut plugin);
    assert!(matches!(state, ServerState::Create));
    assert_eq!(plugin, started());
}

#[test]
fn whole_shutdown() {
    let mut plugin = started();
    plugin.active_pipe = Some(9);
    let mut phase = plugin.begin_shutdown();
    assert!(plugin.shutdown_flag);
    assert_eq!(phase, ShutdownPhase::Disconnect { pipe: 9 });
    let expected = [
        (ShutdownEvent::Performed, ShutdownPhase::WaitForPipe),
        (ShutdownEvent::Performed, ShutdownPhase::OpenDummy),
        (
            ShutdownEvent::Opened(Some(4)),
            ShutdownPhase::CloseDummy { handle: 4 },
        ),
        (ShutdownEvent::Performed, ShutdownPhase::JoinWorker),
        (ShutdownEvent::Performed, ShutdownPhase::Done),
    ];
    for (event, next) in expected {
        phase = plugin.continue_shutdown(phase, event);
        assert_eq!(phase, next);
    }
    assert!(!plugin.worker_thread);
    assert_eq!(plugin.active_pipe, None);
}

#[test]
fn shutdown_without_a_worker() {
    let mut plugin = AliasInserterPlugin::new();
    assert_eq!(plugin.begin_shutdown(), ShutdownPhase::WaitForPipe);
    let phase = plugin.continue_shutdown(ShutdownPhase::WaitForPipe, ShutdownEvent::Performed);
    assert_eq!(phase, ShutdownPhase::OpenDummy);
    let phase = plugin.continue_shutdown(phase, ShutdownEvent::Opened(None));
    assert_eq!(phase, ShutdownPhase::Done);
    assert_eq!(
        plugin.continue_shutdown(phase, ShutdownEvent::Performed),
        ShutdownPhase::Done
    );
}

#[test]
fn plugin_information() {
    let table = AliasInserterPlugin::plugin_info("1.2.3");
    assert_eq!(table.name, "AviUtl2 Alias Inserter");
    assert_eq!(
        table.information,
        "AviUtl2 エイリアス自動挿入プラグイン v1.2.3 / Named Pipe 経由でエイリアスをタイムラインに挿入します"
    );
}

fn performed(success: bool) -> DescriptorEvent {
    DescriptorEvent::Performed { success }
}

fn built(descriptor: Option<usize>) -> DescriptorEvent {
    DescriptorEvent::Built { descriptor }
}

#[test]
fn descriptor_for_the_owner() {
    assert_eq!(owner_sddl("S-1-5-21-7"), "D:P(A;;GRGW;;;S-1-5-21-7)");
    let state = DescriptorState::start()
        .build_owner_security_descriptor(performed(true))
        .build_owner_security_descriptor(DescriptorEvent::Size { bytes: 44 });
    assert!(matches!(state, DescriptorState::ReadUser { size: 44 }));
    let state = state
        .build_owner_security_descriptor(performed(true))
        .build_owner_security_descriptor(performed(true))
        .build_owner_security_descriptor(DescriptorEvent::Sid {
            text: Some("S-1-5-18".to_string()),
        });
    let expected: Vec<u16> = "D:P(A;;GRGW;;;S-1-5-18)\0".encode_utf16().collect();
    match &state {
        DescriptorState::Build { definition } => assert_eq!(definition, &expected),
        _ => panic!("the descriptor is built next"),
    }
    let state = state
        .build_owner_security_descriptor(built(Some(0x7000)))
        .build_owner_security_descriptor(performed(true))
        .build_owner_security_descriptor(performed(true));
    assert!(matches!(state, DescriptorState::Finished { descriptor: Some(0x7000) }));
}

#[test]
fn descriptor_gives_back_what_it_took() {
    let start = DescriptorState::start().build_owner_security_descriptor(performed(false));
    assert!(matches!(start, DescriptorState::Finished { descriptor: None }));
    let sized = DescriptorState::start()
        .build_owner_security_descriptor(performed(true))
        .build_owner_security_descriptor(DescriptorEvent::Size { bytes: 0 });
    assert!(matches!(sized, DescriptorState::CloseToken { descriptor: None }));
    let unread = DescriptorState::ReadUser { size: 1 }
        .build_owner_security_descriptor(performed(false));
    assert!(matches!(unread, DescriptorState::CloseToken { descriptor: None }));
    let no_string =
        DescriptorState::AllocateSid.build_owner_security_descriptor(performed(false));
    assert!(matches!(no_string, DescriptorState::CloseToken { descriptor: None }));
    let no_copy = DescriptorState::CopySid
        .build_owner_security_descriptor(DescriptorEvent::Sid { text: None });
    assert!(matches!(no_copy, DescriptorState::FreeSid { descriptor: None }));
    let not_built = DescriptorState::Build { definition: vec![0] }
        .build_owner_security_descriptor(built(None))
        .build_owner_security_descriptor(performed(true));
    assert!(matches!(not_built, DescriptorState::CloseToken { descriptor: None }));
}

/// A creation after the steps of a descriptor of which `descriptor` came.
fn creating(descriptor: Option<usize>) -> CreationState {
    let mut state = CreationState::start();
    for event in [
        performed(true),
        DescriptorEvent::Size { bytes: 44 },
        performed(true),
        performed(true),
        DescriptorEvent::Sid { text: Some("S-1-5-18".to_string()) },
        built(descriptor),
        performed(true),
        performed(true),
    ] {
        assert!(matches!(state, CreationState::Descriptor { .. }));
        state = state.advance(CreationEvent::Descriptor { event });
    }
    state
}

#[test]
fn descriptor_is_freed_after_the_creation() {
    let state = creating(Some(0x7000));
    match &state {
        CreationState::Create { arguments } => {
            assert_eq!(arguments.descriptor, Some(0x7000));
            assert!(!arguments.inherit_handle);
            assert_eq!(arguments.warning, None);
        }
        _ => panic!("the pipe is created next"),
    }
    // The descriptor cannot be freed before.
    let state = state.advance(CreationEvent::Freed);
    assert!(matches!(state, CreationState::Create { .. }));
    let state = state.advance(CreationEvent::Created { pipe: 7 });
    assert!(matches!(
        state,
        CreationState::FreeDescriptor { descriptor: 0x7000, pipe: 7 }
    ));
    let state = state.advance(CreationEvent::Freed);
    assert!(matches!(state, CreationState::Finished { pipe: 7 }));
    assert!(matches!(
        state.advance(CreationEvent::Freed),
        CreationState::Finished { pipe: 7 }
    ));
}

#[test]
fn descriptor_is_freed_after_a_creation_that_failed() {
    let state = creating(Some(1)).advance(CreationEvent::Created { pipe: -1 });
    assert!(matches!(
        state,
        CreationState::FreeDescriptor { descriptor: 1, pipe: -1 }
    ));
}

#[test]
fn pipe_is_created_without_a_descriptor() {
    let without_token = CreationState::start().advance(CreationEvent::Descriptor {
        event: performed(false),
    });
    for state in [creating(None), without_token] {
        match &state {
            CreationState::Create { arguments } => {
                assert_eq!(arguments.descriptor, None);
                assert!(arguments.warning.is_some());
            }
            _ => panic!("the pipe is created next"),
        }
        assert!(matches!(
            state.advance(CreationEvent::Created { pipe: 7 }),
            CreationState::Finished { pipe: 7 }
        ));
    }
    // There is nothing to free at the null address.
    assert!(matches!(
        creating(Some(0)).advance(CreationEvent::Created { pipe: 7 }),
        CreationState::Finished { pipe: 7 }
    ));
}

#[test]
fn pipe_is_disconnected_before_it_is_closed() {
    let mut plugin = started();
    let state = reading(&mut plugin)
        .pipe_server_loop(received(&[], None), &mut plugin)
        .pipe_server_loop(ServerEvent::Closed, &mut plugin);
    assert!(matches!(state, ServerState::Disconnect { pipe: 7, .. }));
    let state = state.pipe_server_loop(ServerEvent::Disconnected, &mut plugin);
    assert!(matches!(
        state,
        ServerState::Close { pipe: 7, received: None, last: false }
    ));
}

#[test]
fn reports_of_the_server() {
    assert_eq!(create_failure_report(7), None);
    assert_eq!(
        create_failure_report(-1).unwrap(),
        "Named Pipe インスタンスの作成に失敗しました。サーバーを終了します"
    );
    assert_eq!(wait_failure_report(None, "e"), None);
    assert_eq!(wait_failure_report(Some(PIPE_CONNECTED), "e"), None);
    assert_eq!(
        wait_failure_report(Some(BROKEN_PIPE), "e").unwrap(),
        "ConnectNamedPipe が失敗しました: e"
    );
    assert_eq!(worker_report(false), None);
    assert_eq!(
        worker_report(true).unwrap(),
        "ワーカースレッドがパニックしました。強制終了します"
    );
}

#[test]
fn reports_of_a_shutdown() {
    let connected = ServerEvent::Connected { failure: None };
    let mut plugin = started();
    let waiting = ServerState::Connect { pipe: 7 };
    let closing = ServerState::Close { pipe: 7, received: None, last: false };
    let last = ServerState::Close { pipe: 7, received: None, last: true };
    assert_eq!(waiting.shutdown_report(&connected, &plugin), None);
    plugin.begin_shutdown();
    assert_eq!(
        waiting.shutdown_report(&connected, &plugin).unwrap(),
        "シャットダウンフラグを検出しました。ループを終了します"
    );
    assert_eq!(
        closing.shutdown_report(&ServerEvent::Closed, &plugin).unwrap(),
        "シャットダウンフラグを検出しました（ReadFile 後）。ループを終了します"
    );
    assert_eq!(last.shutdown_report(&ServerEvent::Closed, &plugin), None);
    let failed = ServerEvent::Connected { failure: Some(BROKEN_PIPE) };
    assert_eq!(waiting.shutdown_report(&failed, &plugin), None);
}
