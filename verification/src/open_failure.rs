//! Why a file could not be opened.
use vstd::prelude::*;

verus! {

/// The kinds of failure that are told apart.
#[derive(Clone, Copy, Debug, PartialEq, Eq, Structural)]
pub enum OpenFailureKind {
    NotFound,
    PermissionDenied,
    Other,
}

/// A failure to open a file.
pub struct OpenFailure {
    pub kind: OpenFailureKind,
    /// What the system says about it.
    pub text: String,
}

/// A failure to open a file, over plain values.
pub struct OpenFailureView {
    pub kind: OpenFailureKind,
    pub text: Seq<char>,
}

impl View for OpenFailure {
    type V = OpenFailureView;

    open spec fn view(&self) -> OpenFailureView {
        OpenFailureView { kind: self.kind, text: self.text@ }
    }
}

/// The failure that an attempt to open a file ended in, if it did.
pub open spec fn optional_failure_view(failure: Option<OpenFailure>) -> Option<OpenFailureView> {
    match failure {
        Some(failure) => Some(failure@),
        None => None,
    }
}

/// What is said of a file that could not be opened for a reason that has no message of its
/// own.
pub open spec fn cannot_open_message(path: Seq<char>, text: Seq<char>) -> Seq<char> {
    "ファイルを開けませんでした: "@ + path + " ("@ + text + ")"@
}

/// The message for such a file.
pub fn cannot_open(path: &str, text: &str) -> (message: String)
    ensures
        message@ == cannot_open_message(path@, text@),
        message@ == "ファイルを開けませんでした: "@ + path@ + " ("@ + text@ + ")"@,
{
    let mut message = "ファイルを開けませんでした: ".to_string();
    message.append(path);
    message.append(" (");
    message.append(text);
    message.append(")");
    message
}

} // verus!
