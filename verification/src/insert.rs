//! Inserting an alias file: the checks around it, and the steps inside the edit section.
use vstd::prelude::*;

use crate::alias_path::{has_object_extension, is_alias_path};
use crate::open_failure::{
    cannot_open, cannot_open_message, OpenFailure, OpenFailureKind, OpenFailureView,
};
use crate::text::{decimal, join, optional_view, push_decimal, result_view};
use crate::win32::FILE_TYPE_DISK;

verus! {

/// The largest alias file that is read, in bytes.
pub const MAX_OBJECT_FILE_SIZE: u64 = 1_048_576;

/// What has to be done next to insert an alias.
pub enum InsertState {
    /// Ask whether the host can be edited yet.
    CheckReady { path: String },
    /// Enter the host's edit section, and go through the steps of an `AliasFile` there.
    EditSection { path: String },
    /// Nothing: the end.
    Finished { report: InsertReport },
}

/// How the insertion ended, with the message that says so.
pub enum InsertReport {
    /// The path is not that of an alias file.
    Ignored { message: String },
    /// The host cannot be edited yet.
    NotReady { message: String },
    /// The object is on the timeline.
    Inserted,
    /// A step inside the edit section failed.
    Failed { message: String },
    /// The host did not let the edit section be entered.
    Unavailable { message: String },
}

/// How serious a report is.
#[derive(Clone, Copy, Debug, PartialEq, Eq, Structural)]
pub enum ReportLevel {
    Warning,
    Error,
}

/// What came of it.
pub enum InsertEvent {
    /// Whether the host can be edited.
    Ready { ready: bool },
    /// The edit section was left; the failure inside it, if there was one.
    SectionLeft { failure: Option<String> },
    /// The edit section could not be entered; what the host says about it.
    SectionRefused { text: String },
}

/// What has to be done next, over plain values.
pub enum InsertView {
    CheckReady { path: Seq<char> },
    EditSection { path: Seq<char> },
    Finished { report: InsertReportView },
}

/// How the insertion ended, over plain values.
pub enum InsertReportView {
    Ignored { message: Seq<char> },
    NotReady { message: Seq<char> },
    Inserted,
    Failed { message: Seq<char> },
    Unavailable { message: Seq<char> },
}

/// What came of it, over plain values.
pub enum InsertEventView {
    Ready { ready: bool },
    SectionLeft { failure: Option<Seq<char>> },
    SectionRefused { text: Seq<char> },
}

impl View for InsertReport {
    type V = InsertReportView;

    open spec fn view(&self) -> InsertReportView {
        match *self {
            InsertReport::Ignored { message } => InsertReportView::Ignored { message: message@ },
            InsertReport::NotReady { message } => InsertReportView::NotReady {
                message: message@,
            },
            InsertReport::Inserted => InsertReportView::Inserted,
            InsertReport::Failed { message } => InsertReportView::Failed { message: message@ },
            InsertReport::Unavailable { message } => InsertReportView::Unavailable {
                message: message@,
            },
        }
    }
}

impl View for InsertState {
    type V = InsertView;

    open spec fn view(&self) -> InsertView {
        match *self {
            InsertState::CheckReady { path } => InsertView::CheckReady { path: path@ },
            InsertState::EditSection { path } => InsertView::EditSection { path: path@ },
            InsertState::Finished { report } => InsertView::Finished { report: report@ },
        }
    }
}

impl View for InsertEvent {
    type V = InsertEventView;

    open spec fn view(&self) -> InsertEventView {
        match *self {
            InsertEvent::Ready { ready } => InsertEventView::Ready { ready },
            InsertEvent::SectionLeft { failure } => InsertEventView::SectionLeft {
                failure: optional_view(failure),
            },
            InsertEvent::SectionRefused { text } => InsertEventView::SectionRefused {
                text: text@,
            },
        }
    }
}

/// What is said of a path that is not that of an alias file.
pub open spec fn ignored_message(path: Seq<char>) -> Seq<char> {
    "'.object' 拡張子ではないファイルを受信しました（無視します）: "@ + path
}

/// What is said of a host that cannot be edited yet.
pub open spec fn not_ready_message() -> Seq<char> {
    "編集ハンドルがまだ準備できていません（タイムラインが開かれていない可能性があります）"@
}

/// What is said of a failure inside the edit section.
pub open spec fn failed_message(failure: Seq<char>) -> Seq<char> {
    "エイリアス挿入処理でエラーが発生しました: "@ + failure
}

/// What is said when the edit section cannot be entered.
pub open spec fn unavailable_message(text: Seq<char>) -> Seq<char> {
    "call_edit_section が失敗しました（編集不可状態の可能性があります）: "@ + text
}

/// The first thing to do with a path: one that is not that of an alias file is ignored.
pub open spec fn insert_start(path: Seq<char>) -> InsertView {
    if is_alias_path(path) {
        InsertView::CheckReady { path }
    } else {
        InsertView::Finished {
            report: InsertReportView::Ignored { message: ignored_message(path) },
        }
    }
}

/// The event is one that the state can end in.
pub open spec fn insert_event_fits(state: InsertView, event: InsertEventView) -> bool {
    match state {
        InsertView::CheckReady { .. } => event is Ready,
        InsertView::EditSection { .. } => event is SectionLeft || event is SectionRefused,
        InsertView::Finished { .. } => false,
    }
}

/// What has to be done next. An event that does not fit the state changes nothing.
pub open spec fn insert_step(state: InsertView, event: InsertEventView) -> InsertView {
    if !insert_event_fits(state, event) {
        state
    } else {
        match (state, event) {
            (InsertView::CheckReady { path }, InsertEventView::Ready { ready }) => if ready {
                InsertView::EditSection { path }
            } else {
                InsertView::Finished {
                    report: InsertReportView::NotReady { message: not_ready_message() },
                }
            },
            (_, InsertEventView::SectionLeft { failure: None }) => InsertView::Finished {
                report: InsertReportView::Inserted,
            },
            (_, InsertEventView::SectionLeft { failure: Some(failure) }) => InsertView::Finished {
                report: InsertReportView::Failed { message: failed_message(failure) },
            },
            (_, InsertEventView::SectionRefused { text }) => InsertView::Finished {
                report: InsertReportView::Unavailable { message: unavailable_message(text) },
            },
            _ => state,
        }
    }
}

/// The level and the message with which the end of an insertion is logged. An ignored path is
/// worth a warning, a failure is an error, and a success needs no message beyond the one for
/// the file.
pub open spec fn report_line(report: InsertReportView) -> Option<(ReportLevel, Seq<char>)> {
    match report {
        InsertReportView::Ignored { message } => Some((ReportLevel::Warning, message)),
        InsertReportView::NotReady { message } => Some((ReportLevel::Error, message)),
        InsertReportView::Inserted => None,
        InsertReportView::Failed { message } => Some((ReportLevel::Error, message)),
        InsertReportView::Unavailable { message } => Some((ReportLevel::Error, message)),
    }
}

/// A line of the log.
pub open spec fn line_view(line: Option<(ReportLevel, String)>) -> Option<
    (ReportLevel, Seq<char>),
> {
    match line {
        Some((level, message)) => Some((level, message@)),
        None => None,
    }
}

impl InsertReport {
    /// The level and the message with which this is logged, if it is.
    pub fn line(self) -> (line: Option<(ReportLevel, String)>)
        ensures
            line_view(line) == report_line(self@),
            match self {
                InsertReport::Ignored { message } => line == Some((ReportLevel::Warning, message)),
                InsertReport::NotReady { message } => line == Some((ReportLevel::Error, message)),
                InsertReport::Inserted => line is None,
                InsertReport::Failed { message } => line == Some((ReportLevel::Error, message)),
                InsertReport::Unavailable { message } => line == Some(
                    (ReportLevel::Error, message),
                ),
            },
    {
        match self {
            InsertReport::Ignored { message } => Some((ReportLevel::Warning, message)),
            InsertReport::NotReady { message } => Some((ReportLevel::Error, message)),
            InsertReport::Inserted => None,
            InsertReport::Failed { message } => Some((ReportLevel::Error, message)),
            InsertReport::Unavailable { message } => Some((ReportLevel::Error, message)),
        }
    }
}

impl InsertState {
    /// The first thing to do to insert the alias file at `path`.
    pub fn insert_alias(path: String) -> (state: InsertState)
        ensures
            state@ == insert_start(path@),
    {
        if has_object_extension(path.as_str()) {
            InsertState::CheckReady { path }
        } else {
            InsertState::Finished {
                report: InsertReport::Ignored {
                    message: join(
                        "'.object' 拡張子ではないファイルを受信しました（無視します）: ",
                        path.as_str(),
                    ),
                },
            }
        }
    }

    /// What has to be done once `event` came of this.
    pub fn advance(self, event: InsertEvent) -> (next: InsertState)
        ensures
            next@ == insert_step(self@, event@),
    {
        match (self, event) {
            (InsertState::CheckReady { path }, InsertEvent::Ready { ready }) => {
                if ready {
                    InsertState::EditSection { path }
                } else {
                    InsertState::Finished {
                        report: InsertReport::NotReady {
                            message: "編集ハンドルがまだ準備できていません（タイムラインが開かれていない可能性があります）".to_string(),
                        },
                    }
                }
            },
            (InsertState::EditSection { path: _ }, InsertEvent::SectionLeft { failure }) => {
                match failure {
                    None => InsertState::Finished { report: InsertReport::Inserted },
                    Some(failure) => InsertState::Finished {
                        report: InsertReport::Failed {
                            message: join(
                                "エイリアス挿入処理でエラーが発生しました: ",
                                failure.as_str(),
                            ),
                        },
                    },
                }
            },
            (InsertState::EditSection { path: _ }, InsertEvent::SectionRefused { text }) => {
                InsertState::Finished {
                    report: InsertReport::Unavailable {
                        message: join(
                            "call_edit_section が失敗しました（編集不可状態の可能性があります）: ",
                            text.as_str(),
                        ),
                    },
                }
            },
            (state, _) => state,
        }
    }
}

/// The steps inside the edit section.
pub enum AliasPhase {
    /// Open the file.
    Open,
    /// Ask what type of file the opened file is.
    CheckType { file: usize },
    /// Ask for its size.
    QuerySize { file: usize },
    /// Read it as text.
    Read { file: usize },
    /// Close it. The text that was read, or the failure.
    Close { file: usize, outcome: Result<String, String> },
    /// Find out where the cursor stands.
    FindCursor { alias: String },
    /// Create the object from the text, in that layer at that frame with that length.
    Create { alias: String, layer: usize, frame: usize, length: usize },
    /// Nothing: the end. The failure, if there was one.
    Finished { failure: Option<String> },
}

/// An alias file on its way onto the timeline.
pub struct AliasFile {
    pub path: String,
    pub phase: AliasPhase,
}

/// What came of a step.
pub enum AliasEvent {
    /// The file was opened under that number, or not.
    Opened { file: Result<usize, OpenFailure> },
    /// The type of the file.
    Type { file_type: u32 },
    /// The size of the file in bytes, or why it is not known.
    Size { bytes: Result<u64, String> },
    /// The text of the file, or why it could not be read.
    Contents { text: Result<String, String> },
    /// The file was closed.
    Closed,
    /// The layer and the frame of the cursor.
    Cursor { layer: usize, frame: usize },
    /// The object was created, or not.
    Created { failure: Option<String> },
}

/// The steps inside the edit section, over plain values.
pub enum AliasPhaseView {
    Open,
    CheckType { file: usize },
    QuerySize { file: usize },
    Read { file: usize },
    Close { file: usize, outcome: Result<Seq<char>, Seq<char>> },
    FindCursor { alias: Seq<char> },
    Create { alias: Seq<char>, layer: usize, frame: usize, length: usize },
    Finished { failure: Option<Seq<char>> },
}

/// What came of a step, over plain values.
pub enum AliasEventView {
    Opened { file: Result<usize, OpenFailureView> },
    Type { file_type: u32 },
    Size { bytes: Result<u64, Seq<char>> },
    Contents { text: Result<Seq<char>, Seq<char>> },
    Closed,
    Cursor { layer: usize, frame: usize },
    Created { failure: Option<Seq<char>> },
}

impl View for AliasPhase {
    type V = AliasPhaseView;

    open spec fn view(&self) -> AliasPhaseView {
        match *self {
            AliasPhase::Open => AliasPhaseView::Open,
            AliasPhase::CheckType { file } => AliasPhaseView::CheckType { file },
            AliasPhase::QuerySize { file } => AliasPhaseView::QuerySize { file },
            AliasPhase::Read { file } => AliasPhaseView::Read { file },
            AliasPhase::Close { file, outcome } => AliasPhaseView::Close {
                file,
                outcome: result_view(outcome),
            },
            AliasPhase::FindCursor { alias } => AliasPhaseView::FindCursor { alias: alias@ },
            AliasPhase::Create { alias, layer, frame, length } => AliasPhaseView::Create {
                alias: alias@,
                layer,
                frame,
                length,
            },
            AliasPhase::Finished { failure } => AliasPhaseView::Finished {
                failure: optional_view(failure),
            },
        }
    }
}

impl View for AliasEvent {
    type V = AliasEventView;

    open spec fn view(&self) -> AliasEventView {
        match *self {
            AliasEvent::Opened { file: Ok(file) } => AliasEventView::Opened { file: Ok(file) },
            AliasEvent::Opened { file: Err(failure) } => AliasEventView::Opened {
                file: Err(failure@),
            },
            AliasEvent::Type { file_type } => AliasEventView::Type { file_type },
            AliasEvent::Size { bytes: Ok(bytes) } => AliasEventView::Size { bytes: Ok(bytes) },
            AliasEvent::Size { bytes: Err(error) } => AliasEventView::Size { bytes: Err(error@) },
            AliasEvent::Contents { text } => AliasEventView::Contents { text: result_view(text) },
            AliasEvent::Closed => AliasEventView::Closed,
            AliasEvent::Cursor { layer, frame } => AliasEventView::Cursor { layer, frame },
            AliasEvent::Created { failure } => AliasEventView::Created {
                failure: optional_view(failure),
            },
        }
    }
}

/// What is said of a file that could not be opened.
pub open spec fn open_failure_message(path: Seq<char>, failure: OpenFailureView) -> Seq<char> {
    if failure.kind == OpenFailureKind::NotFound {
        "エイリアスファイルが存在しません: "@ + path
    } else {
        cannot_open_message(path, failure.text)
    }
}

/// What is said of a file that is no regular file on a disk.
pub open spec fn not_a_disk_file_message(path: Seq<char>) -> Seq<char> {
    "通常のディスクファイルではありません（パイプやデバイスファイルは拒否します）: "@ + path
}

/// What is said of a file whose size is not known.
pub open spec fn size_unknown_message(error: Seq<char>) -> Seq<char> {
    "ファイルのメタデータ取得に失敗しました: "@ + error
}

/// What is said of a file that is too large.
pub open spec fn too_large_message(path: Seq<char>, bytes: u64) -> Seq<char> {
    "ファイルサイズが上限を超えています（"@ + decimal(bytes as nat) + " バイト、上限 "@ + decimal(
        MAX_OBJECT_FILE_SIZE as nat,
    ) + " バイト）: "@ + path
}

/// What is said of a file that could not be read.
pub open spec fn read_failure_message(error: Seq<char>) -> Seq<char> {
    "ファイルの読み込みに失敗しました: "@ + error
}

/// What is said of an object that could not be created.
pub open spec fn create_failure_message(error: Seq<char>) -> Seq<char> {
    "create_object_from_alias が失敗しました: "@ + error
}

/// The end in the failure `message`.
pub open spec fn alias_failed(message: Seq<char>) -> AliasPhaseView {
    AliasPhaseView::Finished { failure: Some(message) }
}

/// The event is one that the step can end in.
pub open spec fn alias_event_fits(phase: AliasPhaseView, event: AliasEventView) -> bool {
    match phase {
        AliasPhaseView::Open => event is Opened,
        AliasPhaseView::CheckType { .. } => event is Type,
        AliasPhaseView::QuerySize { .. } => event is Size,
        AliasPhaseView::Read { .. } => event is Contents,
        AliasPhaseView::Close { .. } => event is Closed,
        AliasPhaseView::FindCursor { .. } => event is Cursor,
        AliasPhaseView::Create { .. } => event is Created,
        AliasPhaseView::Finished { .. } => false,
    }
}

/// The opened file is closed after the failure `message`.
pub open spec fn closed_after(file: usize, message: Seq<char>) -> AliasPhaseView {
    AliasPhaseView::Close { file, outcome: Err(message) }
}

/// The next step for the file at `path`. What is asked of the file is asked of the one that was
/// opened, and that file is closed on every way to the end. An event that does not fit the step
/// changes nothing.
pub open spec fn alias_step(
    path: Seq<char>,
    phase: AliasPhaseView,
    event: AliasEventView,
) -> AliasPhaseView {
    match (phase, event) {
        (AliasPhaseView::Open, AliasEventView::Opened { file }) => match file {
            Ok(file) => AliasPhaseView::CheckType { file },
            Err(failure) => alias_failed(open_failure_message(path, failure)),
        },
        (AliasPhaseView::CheckType { file }, AliasEventView::Type { file_type }) => {
            if file_type == FILE_TYPE_DISK {
                AliasPhaseView::QuerySize { file }
            } else {
                closed_after(file, not_a_disk_file_message(path))
            }
        },
        (AliasPhaseView::QuerySize { file }, AliasEventView::Size { bytes }) => match bytes {
            Ok(bytes) => if bytes <= MAX_OBJECT_FILE_SIZE {
                AliasPhaseView::Read { file }
            } else {
                closed_after(file, too_large_message(path, bytes))
            },
            Err(error) => closed_after(file, size_unknown_message(error)),
        },
        (AliasPhaseView::Read { file }, AliasEventView::Contents { text }) => match text {
            Ok(alias) => AliasPhaseView::Close { file, outcome: Ok(alias) },
            Err(error) => closed_after(file, read_failure_message(error)),
        },
        (AliasPhaseView::Close { outcome, .. }, AliasEventView::Closed) => match outcome {
            Ok(alias) => AliasPhaseView::FindCursor { alias },
            Err(message) => alias_failed(message),
        },
        (
            AliasPhaseView::FindCursor { alias },
            AliasEventView::Cursor { layer, frame },
        ) => AliasPhaseView::Create { alias, layer, frame, length: 0 },
        (AliasPhaseView::Create { .. }, AliasEventView::Created { failure }) => match failure {
            Some(error) => alias_failed(create_failure_message(error)),
            None => AliasPhaseView::Finished { failure: None },
        },
        _ => phase,
    }
}

/// How the edit section is left when the steps inside it are over, if they are.
pub open spec fn section_end(phase: AliasPhaseView) -> Option<InsertEventView> {
    match phase {
        AliasPhaseView::Finished { failure } => Some(InsertEventView::SectionLeft { failure }),
        _ => None,
    }
}

/// What came of an insertion, if something did.
pub open spec fn optional_event_view(event: Option<InsertEvent>) -> Option<InsertEventView> {
    match event {
        Some(event) => Some(event@),
        None => None,
    }
}

/// What is said before the object is created.
pub open spec fn creating_notice(path: Seq<char>, layer: usize, frame: usize) -> Seq<char> {
    "エイリアスを挿入中... ファイル="@ + path + ", フレーム="@ + decimal(frame as nat) + ", レイヤー="@
        + decimal(layer as nat)
}

/// What is said once the object has been created.
pub open spec fn created_notice(path: Seq<char>) -> Seq<char> {
    "エイリアスの挿入に成功しました: "@ + path
}

/// What there is to say at a step of the file at `path`.
pub open spec fn alias_notice(path: Seq<char>, phase: AliasPhaseView) -> Option<Seq<char>> {
    match phase {
        AliasPhaseView::Create { layer, frame, .. } => Some(creating_notice(path, layer, frame)),
        AliasPhaseView::Finished { failure: None } => Some(created_notice(path)),
        _ => None,
    }
}

/// The end in the failure `message`.
fn failed(message: String) -> (phase: AliasPhase)
    ensures
        phase@ == alias_failed(message@),
{
    AliasPhase::Finished { failure: Some(message) }
}

/// The message for a file that could not be opened.
fn open_failed(path: &str, failure: &OpenFailure) -> (message: String)
    ensures
        message@ == open_failure_message(path@, failure@),
{
    match failure.kind {
        OpenFailureKind::NotFound => join("エイリアスファイルが存在しません: ", path),
        _ => cannot_open(path, failure.text.as_str()),
    }
}

/// The message for a file that is too large.
fn too_large(path: &str, bytes: u64) -> (message: String)
    ensures
        message@ == too_large_message(path@, bytes),
{
    let mut message = "ファイルサイズが上限を超えています（".to_string();
    push_decimal(&mut message, bytes);
    message.append(" バイト、上限 ");
    push_decimal(&mut message, MAX_OBJECT_FILE_SIZE);
    message.append(" バイト）: ");
    message.append(path);
    message
}

impl AliasFile {
    /// The alias file at `path`, of which nothing has been done.
    pub fn new(path: String) -> (file: AliasFile)
        ensures
            file.path == path,
            file.phase@ == AliasPhaseView::Open,
    {
        AliasFile { path, phase: AliasPhase::Open }
    }

    /// What there is to say at the file's current step.
    pub fn notice(&self) -> (notice: Option<String>)
        ensures
            optional_view(notice) == alias_notice(self.path@, self.phase@),
            match self.phase {
                AliasPhase::Create { layer, frame, .. } => notice matches Some(said) && said@
                    == "エイリアスを挿入中... ファイル="@ + self.path@ + ", フレーム="@ + decimal(frame as nat)
                    + ", レイヤー="@ + decimal(layer as nat),
                AliasPhase::Finished { failure: None } => notice matches Some(said) && said@
                    == "エイリアスの挿入に成功しました: "@ + self.path@,
                _ => notice is None,
            },
    {
        match &self.phase {
            AliasPhase::Create { alias: _, layer, frame, length: _ } => {
                let mut notice = join("エイリアスを挿入中... ファイル=", self.path.as_str());
                notice.append(", フレーム=");
                push_decimal(&mut notice, *frame as u64);
                notice.append(", レイヤー=");
                push_decimal(&mut notice, *layer as u64);
                Some(notice)
            },
            AliasPhase::Finished { failure: None } => Some(
                join("エイリアスの挿入に成功しました: ", self.path.as_str()),
            ),
            _ => None,
        }
    }

    /// How the edit section is left, once the file's last step is over.
    pub fn section_left(&self) -> (event: Option<InsertEvent>)
        ensures
            optional_event_view(event) == section_end(self.phase@),
            event is Some <==> self.phase is Finished,
            event matches Some(left) ==> (left matches InsertEvent::SectionLeft { failure }
                && optional_view(failure) == optional_view(self.phase->Finished_failure)),
    {
        match &self.phase {
            AliasPhase::Finished { failure } => Some(
                InsertEvent::SectionLeft {
                    failure: match failure {
                        Some(message) => Some(message.clone()),
                        None => None,
                    },
                },
            ),
            _ => None,
        }
    }

    /// The step that follows once `event` came of the file's current one.
    pub fn advance(self, event: AliasEvent) -> (next: AliasFile)
        ensures
            next.path == self.path,
            next.phase@ == alias_step(self.path@, self.phase@, event@),
    {
        let path = self.path;
        let phase = match (self.phase, event) {
            (AliasPhase::Open, AliasEvent::Opened { file }) => match file {
                Ok(file) => AliasPhase::CheckType { file },
                Err(failure) => failed(open_failed(path.as_str(), &failure)),
            },
            (AliasPhase::CheckType { file }, AliasEvent::Type { file_type }) => {
                if file_type == FILE_TYPE_DISK {
                    AliasPhase::QuerySize { file }
                } else {
                    let message = join(
                        "通常のディスクファイルではありません（パイプやデバイスファイルは拒否します）: ",
                        path.as_str(),
                    );
                    AliasPhase::Close { file, outcome: Err(message) }
                }
            },
            (AliasPhase::QuerySize { file }, AliasEvent::Size { bytes }) => match bytes {
                Ok(bytes) => {
                    if bytes > MAX_OBJECT_FILE_SIZE {
                        AliasPhase::Close { file, outcome: Err(too_large(path.as_str(), bytes)) }
                    } else {
                        AliasPhase::Read { file }
                    }
                },
                Err(error) => {
                    let message = join(
                        "ファイルのメタデータ取得に失敗しました: ",
                        error.as_str(),
                    );
                    AliasPhase::Close { file, outcome: Err(message) }
                },
            },
            (AliasPhase::Read { file }, AliasEvent::Contents { text }) => match text {
                Ok(alias) => AliasPhase::Close { file, outcome: Ok(alias) },
                Err(error) => {
                    let message = join("ファイルの読み込みに失敗しました: ", error.as_str());
                    AliasPhase::Close { file, outcome: Err(message) }
                },
            },
            (AliasPhase::Close { file: _, outcome }, AliasEvent::Closed) => match outcome {
                Ok(alias) => AliasPhase::FindCursor { alias },
                Err(message) => failed(message),
            },
            (AliasPhase::FindCursor { alias }, AliasEvent::Cursor { layer, frame }) => {
                AliasPhase::Create { alias, layer, frame, length: 0 }
            },
            (
                AliasPhase::Create { alias: _, layer: _, frame: _, length: _ },
                AliasEvent::Created { failure },
            ) => match failure {
                None => AliasPhase::Finished { failure: None },
                Some(error) => failed(
                    join("create_object_from_alias が失敗しました: ", error.as_str()),
                ),
            },
            (phase, _) => phase,
        };
        AliasFile { path, phase }
    }
}

} // verus!
