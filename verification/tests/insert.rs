use aviutl2_alias_inserter::insert::{
    AliasEvent, AliasFile, AliasPhase, InsertEvent, InsertReport, InsertState, ReportLevel,
    MAX_OBJECT_FILE_SIZE,
};
use aviutl2_alias_inserter::open_failure::{OpenFailure, OpenFailureKind};

const DISK: u32 = 1;

fn opened() -> AliasEvent {
    AliasEvent::Opened { file: Ok(6) }
}

fn file() -> AliasFile {
    AliasFile::new("C:\\a.object".to_string())
}

/// What there is to do once the opened file is closed.
fn closed(file: AliasFile) -> AliasFile {
    assert!(matches!(file.phase, AliasPhase::Close { file: 6, .. }));
    file.advance(AliasEvent::Closed)
}

/// The failure with which the file ends.
fn failure(file: AliasFile) -> String {
    match file.phase {
        AliasPhase::Finished { failure: Some(failure) } => failure,
        _ => panic!("the file fails"),
    }
}

fn unopened(kind: OpenFailureKind) -> String {
    failure(file().advance(AliasEvent::Opened {
        file: Err(OpenFailure { kind, text: "なぜ".to_string() }),
    }))
}

#[test]
fn file_on_its_way_to_the_timeline() {
    let file = file()
        .advance(opened())
        .advance(AliasEvent::Type { file_type: DISK })
        .advance(AliasEvent::Size { bytes: Ok(MAX_OBJECT_FILE_SIZE) });
    assert!(matches!(file.phase, AliasPhase::Read { file: 6 }));
    let file = closed(file.advance(AliasEvent::Contents { text: Ok("[Object]".to_string()) }));
    assert!(matches!(file.phase, AliasPhase::FindCursor { .. }));
    let file = file.advance(AliasEvent::Cursor { layer: 2, frame: 30 });
    match &file.phase {
        AliasPhase::Create { alias, layer, frame, length } => {
            assert_eq!(alias, "[Object]");
            assert_eq!((*layer, *frame, *length), (2, 30, 0));
        }
        _ => panic!("the object is created next"),
    }
    let file = file.advance(AliasEvent::Created { failure: None });
    assert!(matches!(file.phase, AliasPhase::Finished { failure: None }));
    assert_eq!(file.path, "C:\\a.object");
}

#[test]
fn file_that_does_not_open() {
    assert_eq!(
        unopened(OpenFailureKind::NotFound),
        "エイリアスファイルが存在しません: C:\\a.object"
    );
    assert_eq!(
        unopened(OpenFailureKind::PermissionDenied),
        "ファイルを開けませんでした: C:\\a.object (なぜ)"
    );
    assert_eq!(
        unopened(OpenFailureKind::Other),
        "ファイルを開けませんでした: C:\\a.object (なぜ)"
    );
}

#[test]
fn pipes_and_devices_are_not_read() {
    for file_type in [0, 2, 3, 0x8000] {
        assert_eq!(
            failure(closed(file().advance(opened()).advance(AliasEvent::Type { file_type }))),
            "通常のディスクファイルではありません（パイプやデバイスファイルは拒否します）: C:\\a.object"
        );
    }
}

#[test]
fn large_files_are_not_read() {
    let sized = |bytes| {
        file()
            .advance(opened())
            .advance(AliasEvent::Type { file_type: DISK })
            .advance(AliasEvent::Size { bytes })
    };
    assert_eq!(
        failure(closed(sized(Ok(1_048_577)))),
        "ファイルサイズが上限を超えています（1048577 バイト、上限 1048576 バイト）: C:\\a.object"
    );
    assert_eq!(
        failure(closed(sized(Err("x".to_string())))),
        "ファイルのメタデータ取得に失敗しました: x"
    );
    assert!(matches!(sized(Ok(0)).phase, AliasPhase::Read { file: 6 }));
}

#[test]
fn failures_to_read_and_to_create() {
    let readable = || {
        file()
            .advance(opened())
            .advance(AliasEvent::Type { file_type: DISK })
            .advance(AliasEvent::Size { bytes: Ok(1) })
    };
    assert_eq!(
        failure(closed(
            readable().advance(AliasEvent::Contents { text: Err("x".to_string()) })
        )),
        "ファイルの読み込みに失敗しました: x"
    );
    let created = closed(readable().advance(AliasEvent::Contents { text: Ok(String::new()) }))
        .advance(AliasEvent::Cursor { layer: 0, frame: 0 })
        .advance(AliasEvent::Created { failure: Some("y".to_string()) });
    assert_eq!(failure(created), "create_object_from_alias が失敗しました: y");
}

#[test]
fn alias_event_out_of_place_changes_nothing() {
    let file = file().advance(AliasEvent::Created { failure: None });
    assert!(matches!(file.phase, AliasPhase::Open));
}

/// The report with which an insertion ends.
fn report(state: InsertState) -> InsertReport {
    match state {
        InsertState::Finished { report } => report,
        _ => panic!("the insertion ends"),
    }
}

#[test]
fn other_files_are_ignored() {
    match report(InsertState::insert_alias("a.exo".to_string())) {
        InsertReport::Ignored { message } => assert_eq!(
            message,
            "'.object' 拡張子ではないファイルを受信しました（無視します）: a.exo"
        ),
        _ => panic!("the path is ignored"),
    }
}

#[test]
fn host_that_is_not_ready() {
    let state = InsertState::insert_alias("a.Object".to_string());
    assert!(matches!(state, InsertState::CheckReady { .. }));
    match report(state.advance(InsertEvent::Ready { ready: false })) {
        InsertReport::NotReady { message } => assert_eq!(
            message,
            "編集ハンドルがまだ準備できていません（タイムラインが開かれていない可能性があります）"
        ),
        _ => panic!("the host is not ready"),
    }
}

#[test]
fn ends_of_the_edit_section() {
    let section = || {
        let state = InsertState::insert_alias("a.object".to_string())
            .advance(InsertEvent::Ready { ready: true });
        match &state {
            InsertState::EditSection { path } => assert_eq!(path, "a.object"),
            _ => panic!("the edit section is entered"),
        }
        state
    };
    assert!(matches!(
        report(section().advance(InsertEvent::SectionLeft { failure: None })),
        InsertReport::Inserted
    ));
    match report(section().advance(InsertEvent::SectionLeft { failure: Some("x".to_string()) })) {
        InsertReport::Failed { message } => {
            assert_eq!(message, "エイリアス挿入処理でエラーが発生しました: x")
        }
        _ => panic!("the insertion fails"),
    }
    match report(section().advance(InsertEvent::SectionRefused { text: "x".to_string() })) {
        InsertReport::Unavailable { message } => assert_eq!(
            message,
            "call_edit_section が失敗しました（編集不可状態の可能性があります）: x"
        ),
        _ => panic!("the host refuses"),
    }
}

#[test]
fn levels_of_the_reports() {
    let line = |report: InsertReport| report.line();
    let message = || "m".to_string();
    assert_eq!(
        line(InsertReport::Ignored { message: message() }),
        Some((ReportLevel::Warning, message()))
    );
    for report in [
        InsertReport::NotReady { message: message() },
        InsertReport::Failed { message: message() },
        InsertReport::Unavailable { message: message() },
    ] {
        assert_eq!(line(report), Some((ReportLevel::Error, message())));
    }
    assert_eq!(line(InsertReport::Inserted), None);
}

#[test]
fn notices_of_the_file() {
    let file = file();
    assert_eq!(file.notice(), None);
    let file = file
        .advance(opened())
        .advance(AliasEvent::Type { file_type: DISK })
        .advance(AliasEvent::Size { bytes: Ok(1) })
        .advance(AliasEvent::Contents { text: Ok(String::new()) })
        .advance(AliasEvent::Closed)
        .advance(AliasEvent::Cursor { layer: 2, frame: 30 });
    assert_eq!(
        file.notice().unwrap(),
        "エイリアスを挿入中... ファイル=C:\\a.object, フレーム=30, レイヤー=2"
    );
    let file = file.advance(AliasEvent::Created { failure: None });
    assert_eq!(
        file.notice().unwrap(),
        "エイリアスの挿入に成功しました: C:\\a.object"
    );
}

#[test]
fn failure_inside_the_section_is_reported() {
    let file = file().advance(opened()).advance(AliasEvent::Type { file_type: 3 });
    assert!(file.section_left().is_none());
    let left = closed(file).section_left().unwrap();
    let state = InsertState::insert_alias("C:\\a.object".to_string())
        .advance(InsertEvent::Ready { ready: true })
        .advance(left);
    match report(state) {
        InsertReport::Failed { message } => assert_eq!(
            message,
            "エイリアス挿入処理でエラーが発生しました: 通常のディスクファイルではありません（パイプやデバイスファイルは拒否します）: C:\\a.object"
        ),
        _ => panic!("the insertion fails"),
    }
}

/// Every step asks the file that was opened, whatever else comes in between.
#[test]
fn one_file_throughout() {
    let other = || AliasEvent::Opened { file: Ok(99) };
    let file = file().advance(opened()).advance(other());
    assert!(matches!(file.phase, AliasPhase::CheckType { file: 6 }));
    let file = file.advance(AliasEvent::Type { file_type: DISK }).advance(other());
    assert!(matches!(file.phase, AliasPhase::QuerySize { file: 6 }));
    let file = file.advance(AliasEvent::Size { bytes: Ok(1) }).advance(other());
    assert!(matches!(file.phase, AliasPhase::Read { file: 6 }));
    let file = file.advance(AliasEvent::Contents { text: Ok(String::new()) }).advance(other());
    assert!(matches!(file.phase, AliasPhase::Close { file: 6, outcome: Ok(_) }));
}
