use aviutl2_alias_inserter::client::{
    connect_with_retry, send_path_to_plugin, validate_path_extension, validate_path_opened,
    ClientEvent, ClientState, RetryDecision, RetryWait,
};
use aviutl2_alias_inserter::open_failure::{OpenFailure, OpenFailureKind};
use aviutl2_alias_inserter::protocol::encode_utf16le;

const PIPE_BUSY: i32 = 0x8007_00E7u32 as i32;
const FILE_NOT_FOUND: i32 = 0x8007_0002u32 as i32;
const ACCESS_DENIED: i32 = 0x8007_0005u32 as i32;

fn not_opened(kind: OpenFailureKind) -> Option<OpenFailure> {
    Some(OpenFailure { kind, text: "なぜ".to_string() })
}

/// Both halves of the check of a path, the second as if the file did not exist.
fn validate_missing(path: &str) -> Result<(), String> {
    validate_path_extension(path)?;
    validate_path_opened(path, not_opened(OpenFailureKind::NotFound))
}

/// The extension is checked, and then the file.
#[test]
fn test_validate_path_extension() {
    // With another extension the file does not matter.
    assert!(validate_path_extension("/tmp/test.txt").is_err());
    assert!(validate_path_extension("/tmp/test.exe").is_err());
    // With the right one it has to be there.
    let result = validate_missing("/tmp/_alias_inserter_test_nonexistent.object");
    assert!(result.is_err());
}

/// The case of the extension does not matter.
#[test]
fn test_validate_path_extension_case_insensitive() {
    let result = validate_missing("/tmp/_alias_inserter_test_nonexistent_upper.OBJECT");
    assert!(result.is_err());
    assert!(result.unwrap_err().contains("ファイルが見つかりません"));
}

/// A file that is there and has the extension passes.
#[test]
fn test_validate_path_existing_object_file() {
    let path = "/tmp/_alias_inserter_test_valid.object";
    let result = validate_path_extension(path).and_then(|()| validate_path_opened(path, None));
    assert!(result.is_ok());
}

#[test]
fn validation_messages() {
    assert_eq!(
        validate_path_extension("a.txt").unwrap_err(),
        "'.object' 拡張子のファイルを指定してください: a.txt"
    );
    let message = |kind| validate_path_opened("a.object", not_opened(kind)).unwrap_err();
    assert_eq!(
        message(OpenFailureKind::NotFound),
        "ファイルが見つかりません: a.object"
    );
    assert_eq!(
        message(OpenFailureKind::PermissionDenied),
        "ファイルへのアクセスが拒否されました: a.object"
    );
    assert_eq!(
        message(OpenFailureKind::Other),
        "ファイルを開けませんでした: a.object (なぜ)"
    );
}

#[test]
fn retry_while_the_pipe_is_busy() {
    for (attempt, count) in [(0, "1"), (1, "2")] {
        match connect_with_retry(attempt, PIPE_BUSY, "e") {
            RetryDecision::Retry { notice, wait } => {
                assert_eq!(
                    notice,
                    format!("パイプが使用中です。待機してリトライします... ({count}/3)")
                );
                assert_eq!(wait, RetryWait::ForPipe { at_most_ms: 5_000 });
            }
            RetryDecision::GiveUp { .. } => panic!("a busy pipe is waited for"),
        }
    }
}

#[test]
fn retry_while_the_plugin_starts() {
    match connect_with_retry(1, FILE_NOT_FOUND, "e") {
        RetryDecision::Retry { notice, wait } => {
            assert_eq!(
                notice,
                "パイプが見つかりません。プラグインの起動を待機します... (2/3)"
            );
            assert_eq!(wait, RetryWait::Sleep { pause_ms: 500 });
        }
        RetryDecision::GiveUp { .. } => panic!("a missing pipe is slept for"),
    }
}

fn given_up(attempt: u32, hresult: i32) -> String {
    match connect_with_retry(attempt, hresult, "e") {
        RetryDecision::GiveUp { message } => message,
        RetryDecision::Retry { .. } => panic!("the failure is final"),
    }
}

#[test]
fn final_failures_to_connect() {
    assert_eq!(
        given_up(0, ACCESS_DENIED),
        "Named Pipe への接続に失敗しました: e"
    );
    for hresult in [PIPE_BUSY, FILE_NOT_FOUND, ACCESS_DENIED] {
        assert_eq!(
            given_up(2, hresult),
            "Named Pipe への接続に 3 回試みましたが失敗しました (最後のエラー: e)"
        );
    }
    assert!(given_up(u32::MAX, PIPE_BUSY).contains("3 回"));
}

#[test]
fn failures_to_send() {
    assert_eq!(send_path_to_plugin(6, Ok(6)), None);
    assert_eq!(
        send_path_to_plugin(6, Ok(4)).unwrap(),
        "送信バイト数が一致しません: 期待=6, 実際=4"
    );
    assert_eq!(
        send_path_to_plugin(6, Err("e".to_string())).unwrap(),
        "WriteFile が失敗しました: e"
    );
}

fn arguments(paths: &[&str]) -> Vec<String> {
    paths.iter().map(|path| path.to_string()).collect()
}

/// The code and the lines with which the client ends.
fn exit(state: ClientState) -> (i32, Vec<String>) {
    match state {
        ClientState::Exit { code, lines } => (code, lines),
        _ => panic!("the client ends"),
    }
}

#[test]
fn wrong_number_of_arguments() {
    for paths in [&[][..], &["a.object", "b.object"]] {
        assert_eq!(
            exit(ClientState::start("cli.exe", &arguments(paths))),
            (
                1,
                vec![
                    "使用方法: cli.exe <.objectファイルの絶対パス>".to_string(),
                    "例: cli.exe \"C:\\エイリアス\\テキスト.object\"".to_string(),
                ]
            )
        );
    }
}

#[test]
fn invalid_paths_end_the_client() {
    assert_eq!(
        exit(ClientState::start("cli.exe", &arguments(&["a.txt"]))),
        (
            1,
            vec!["エラー: '.object' 拡張子のファイルを指定してください: a.txt".to_string()]
        )
    );
    let state = ClientState::start("cli.exe", &arguments(&["a.object"])).advance(
        ClientEvent::Opened { failure: not_opened(OpenFailureKind::NotFound) },
    );
    assert_eq!(
        exit(state),
        (1, vec!["エラー: ファイルが見つかりません: a.object".to_string()])
    );
}

/// The client up to its first attempt to connect.
fn connecting() -> ClientState {
    ClientState::start("cli.exe", &arguments(&["C:\\あ.object"]))
        .advance(ClientEvent::Opened { failure: None })
}

fn refused(hresult: i32) -> ClientEvent {
    ClientEvent::ConnectFailed { hresult, error: "e".to_string() }
}

#[test]
fn path_is_sent() {
    let state = connecting().advance(ClientEvent::Connected { pipe: 5 });
    let expected = encode_utf16le("C:\\あ.object");
    match &state {
        ClientState::Write { pipe, payload } => {
            assert_eq!(*pipe, 5);
            assert_eq!(payload, &expected);
        }
        _ => panic!("the payload is written next"),
    }
    let state = state.advance(ClientEvent::Written { written: Ok(expected.len() as u32) });
    assert!(matches!(state, ClientState::Close { pipe: 5, failure: None }));
    assert_eq!(exit(state.advance(ClientEvent::Closed)), (0, vec![]));
}

#[test]
fn three_attempts_and_no_more() {
    let mut state = connecting();
    for number in 0..2 {
        assert!(matches!(state, ClientState::Connect { attempt, .. } if attempt == number));
        state = state.advance(refused(PIPE_BUSY));
        assert!(matches!(state, ClientState::Wait { .. }));
        state = state.advance(ClientEvent::Waited);
    }
    assert_eq!(
        exit(state.advance(refused(PIPE_BUSY))),
        (
            2,
            vec![
                "エラー: Named Pipe への接続に 3 回試みましたが失敗しました (最後のエラー: e)"
                    .to_string()
            ]
        )
    );
}

#[test]
fn other_failure_to_connect_is_final() {
    assert_eq!(
        exit(connecting().advance(refused(ACCESS_DENIED))),
        (
            2,
            vec!["エラー: Named Pipe への接続に失敗しました: e".to_string()]
        )
    );
}

#[test]
fn short_write_is_a_failure_after_the_close() {
    let state = connecting()
        .advance(ClientEvent::Connected { pipe: 5 })
        .advance(ClientEvent::Written { written: Ok(0) });
    assert!(matches!(state, ClientState::Close { pipe: 5, failure: Some(_) }));
    let (code, lines) = exit(state.advance(ClientEvent::Closed));
    assert_eq!(code, 2);
    assert_eq!(
        lines,
        vec!["エラー: 送信バイト数が一致しません: 期待=24, 実際=0".to_string()]
    );
}

#[test]
fn client_event_out_of_place_changes_nothing() {
    assert!(matches!(
        connecting().advance(ClientEvent::Closed),
        ClientState::Connect { attempt: 0, .. }
    ));
}
