use aviutl2_alias_inserter::alias_path::has_object_extension;
use aviutl2_alias_inserter::pipes::{
    connect_shutdown_client, create_call_report, create_server_pipe, open_client_pipe,
};
use aviutl2_alias_inserter::text::{join, join_three, push_decimal};
use aviutl2_alias_inserter::win32::{
    reports, ERROR_FILE_NOT_FOUND, ERROR_MORE_DATA, ERROR_PIPE_BUSY, ERROR_PIPE_CONNECTED,
};

#[test]
fn extension_decides() {
    assert!(has_object_extension("C:\\a\\b.object"));
    assert!(has_object_extension(".object"));
    assert!(has_object_extension("テキスト.object"));
    assert!(!has_object_extension("a.exo"));
    assert!(!has_object_extension("a.object "));
    assert!(!has_object_extension("a.objects"));
    assert!(!has_object_extension("aobject"));
    assert!(!has_object_extension("object"));
    assert!(!has_object_extension(""));
}

#[test]
fn extension_ignores_ascii_case() {
    assert!(has_object_extension("A.OBJECT"));
    assert!(has_object_extension("a.ObJeCt"));
    // Only ASCII letters have a case here.
    assert!(!has_object_extension("a.оbject"));
    for path in ["x.OBJECT", "x.Object", "x.objecT", "x.obj", "é.OBJECT", ""] {
        assert_eq!(
            has_object_extension(path),
            path.to_ascii_lowercase().ends_with(".object")
        );
    }
}

#[test]
fn decimal_digits() {
    for n in [0, 7, 9, 10, 99, 100, 1_048_576, u64::MAX] {
        let mut text = "n=".to_string();
        push_decimal(&mut text, n);
        assert_eq!(text, format!("n={n}"));
    }
}

#[test]
fn texts_in_a_row() {
    assert_eq!(join("あ", "b"), "あb");
    assert_eq!(join_three("a", "", "い"), "aい");
}

#[test]
fn hresults_of_win32_errors() {
    assert!(reports(0x8007_0002u32 as i32, ERROR_FILE_NOT_FOUND));
    assert!(reports(0x8007_00E7u32 as i32, ERROR_PIPE_BUSY));
    assert!(reports(0x8007_00EAu32 as i32, ERROR_MORE_DATA));
    assert!(reports(0x8007_0217u32 as i32, ERROR_PIPE_CONNECTED));
    assert!(!reports(234, ERROR_MORE_DATA));
    assert!(!reports(0x8007_00EAu32 as i32, ERROR_PIPE_BUSY));
    assert!(reports(0, 0));
    // Only the low half of a code counts, and a code that is a failure already stays.
    assert!(reports(0x8007_0002u32 as i32, 0x0001_0002));
    assert!(reports(0x8000_4005u32 as i32, 0x8000_4005));
}

#[test]
fn server_pipe_arguments() {
    let expected_name: Vec<u16> = "\\\\.\\pipe\\aviutl2_alias_inserter\0".encode_utf16().collect();
    let pipe = create_server_pipe(Some(0x7000));
    assert_eq!(pipe.name, expected_name);
    assert_eq!(pipe.open_mode, 0x0008_0001);
    assert_eq!(pipe.pipe_mode, 6);
    assert_eq!(pipe.max_instances, 255);
    assert_eq!(pipe.out_buffer_size, 32_768);
    assert_eq!(pipe.in_buffer_size, 32_768);
    assert_eq!(pipe.default_timeout_ms, 0);
    assert_eq!(pipe.descriptor, Some(0x7000));
    assert!(!pipe.inherit_handle);
    assert_eq!(pipe.warning, None);
    let open_to_all = create_server_pipe(None);
    assert_eq!(open_to_all.descriptor, None);
    assert!(!open_to_all.inherit_handle);
    assert_eq!(
        open_to_all.warning.unwrap(),
        "セキュリティ記述子の構築に失敗しました。\
         OS デフォルトのセキュリティ属性でパイプを作成します（同一システム上の別ユーザーからアクセス可能になる場合があります）"
    );
}

#[test]
fn report_of_the_creating_call() {
    assert_eq!(create_call_report(5, "e"), None);
    assert_eq!(
        create_call_report(-1, "e").unwrap(),
        "CreateNamedPipeW が失敗しました: e"
    );
}

#[test]
fn client_pipe_arguments() {
    let dummy = connect_shutdown_client();
    assert_eq!(dummy.name, create_server_pipe(None).name);
    assert_eq!(dummy.access, 0x4000_0000);
    assert_eq!(dummy.share_mode, 0);
    assert_eq!(dummy.disposition, 3);
    assert_eq!(dummy.attributes, 0x80);
    assert_eq!(dummy.wait_ms, 5_000);
    assert_eq!(open_client_pipe(12).wait_ms, 12);
    assert_eq!(open_client_pipe(12).access, 0x4000_0000);
}
