use aviutl2_alias_inserter::client::{ClientEvent, ClientState};
use aviutl2_alias_inserter::insert::{
    AliasEvent, AliasFile, AliasPhase, InsertEvent, InsertReport, InsertState,
};
use aviutl2_alias_inserter::plugin::AliasInserterPlugin;
use aviutl2_alias_inserter::server::{ServerEvent, ServerState};

const MORE_DATA: i32 = 0x8007_00EAu32 as i32;

/// What the client writes for `path`.
fn written(path: &str) -> Vec<u8> {
    let state = ClientState::start("cli.exe", &[path.to_string()])
        .advance(ClientEvent::Opened { failure: None })
        .advance(ClientEvent::Connected { pipe: 1 });
    match state {
        ClientState::Write { payload, .. } => payload,
        _ => panic!("the client writes"),
    }
}

/// What the server does with `message` when the pipe hands it out in pieces of `size` bytes.
fn served(message: &[u8], size: usize) -> ServerState {
    let mut plugin = AliasInserterPlugin::new();
    plugin.register();
    let mut state = ServerState::start()
        .pipe_server_loop(ServerEvent::Created { pipe: 2 }, &mut plugin)
        .pipe_server_loop(ServerEvent::Connected { failure: None }, &mut plugin);
    let count = message.chunks(size).count();
    for (i, chunk) in message.chunks(size).enumerate() {
        let failure = if i + 1 < count { Some(MORE_DATA) } else { None };
        let event = ServerEvent::Received { chunk: chunk.to_vec(), failure };
        state = state.pipe_server_loop(event, &mut plugin);
    }
    state
        .pipe_server_loop(ServerEvent::Disconnected, &mut plugin)
        .pipe_server_loop(ServerEvent::Closed, &mut plugin)
}

/// However the pipe cuts a message up, the path that the client got is the one inserted.
#[test]
fn path_reaches_insertion() {
    let path = "C:\\エイリアス\\𠮷 😀.Object";
    let payload = written(path);
    for size in [1, 2, 3, 7, 1000] {
        match served(&payload, size) {
            ServerState::Insert { path: inserted } => {
                assert_eq!(inserted, path);
                assert!(matches!(
                    InsertState::insert_alias(inserted),
                    InsertState::CheckReady { .. }
                ));
            }
            _ => panic!("the path is inserted"),
        }
    }
}

/// From the client's argument to the object on the timeline.
#[test]
fn path_ends_on_the_timeline() {
    let inserted = match served(&written("C:\\あ.object"), 5) {
        ServerState::Insert { path } => path,
        _ => panic!("the path is inserted"),
    };
    let state = InsertState::insert_alias(inserted).advance(InsertEvent::Ready { ready: true });
    let path = match &state {
        InsertState::EditSection { path } => path.clone(),
        _ => panic!("the edit section is entered"),
    };
    let file = AliasFile::new(path)
        .advance(AliasEvent::Opened { file: Ok(3) })
        .advance(AliasEvent::Type { file_type: 1 })
        .advance(AliasEvent::Size { bytes: Ok(8) })
        .advance(AliasEvent::Contents { text: Ok("[Object]".to_string()) })
        .advance(AliasEvent::Closed)
        .advance(AliasEvent::Cursor { layer: 4, frame: 90 });
    assert!(matches!(
        &file.phase,
        AliasPhase::Create { alias, layer: 4, frame: 90, length: 0 } if alias == "[Object]"
    ));
    assert!(file.section_left().is_none());
    let left = file.advance(AliasEvent::Created { failure: None }).section_left();
    assert!(matches!(
        state.advance(left.unwrap()),
        InsertState::Finished { report: InsertReport::Inserted }
    ));
}

/// The longest path that fits arrives, and one character more is refused.
#[test]
fn longest_path() {
    let fits = format!("{}.object", "a".repeat(16_376));
    assert_eq!(written(&fits).len(), 32_768);
    assert!(matches!(served(&written(&fits), 4096), ServerState::Insert { .. }));
    let longer = format!("a{fits}");
    assert_eq!(written(&longer).len(), 32_770);
    assert!(matches!(served(&written(&longer), 4096), ServerState::Refuse { .. }));
}
