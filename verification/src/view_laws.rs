//! What the views of states and events show: the same step with the same contents, texts by their
//! characters and messages by their bytes. Nothing is left out, and nothing is merged.
use vstd::prelude::*;

use crate::client::{
    lines_view, written_view, ClientEvent, ClientEventView, ClientState, ClientView,
    RetryDecision, RetryView,
};
use crate::creation::{CreationEvent, CreationEventView, CreationState, CreationView};
use crate::insert::{
    line_view, optional_event_view, AliasEvent, AliasEventView, AliasPhase, AliasPhaseView,
    InsertEvent, InsertEventView, InsertReport, InsertReportView, InsertState, InsertView,
    ReportLevel,
};
use crate::open_failure::{optional_failure_view, OpenFailure};
use crate::pipes::ServerPipe;
use crate::reader::{ReadStep, ReadStepView};
use crate::security::{DescriptorEvent, DescriptorEventView, DescriptorState, DescriptorView};
use crate::server::{received_view, ServerEvent, ServerEventView, ServerState, ServerView};
use crate::text::optional_view;

verus! {

/// The view of a read shows whether reading goes on, and the message.
pub proof fn law_read_step_view(step: ReadStep)
    ensures
        match step {
            ReadStep::Continue(reader) => step@ == ReadStepView::Continue(reader@),
            ReadStep::Finish(Some(message)) => step@ == ReadStepView::Finish(Some(message@)),
            ReadStep::Finish(None) => step@ == ReadStepView::Finish(None),
        },
{
}

/// The view of the server's state shows the step, the pipe, and what was received so far.
pub proof fn law_server_state_view(state: ServerState)
    ensures
        match state {
            ServerState::Create => state@ == ServerView::Create,
            ServerState::Connect { pipe } => state@ == (ServerView::Connect { pipe }),
            ServerState::Read { pipe, reader } => state@ == (ServerView::Read {
                pipe,
                message: reader@,
            }),
            ServerState::Disconnect { pipe, received, last } => state@ == (ServerView::Disconnect {
                pipe,
                received: received_view(received),
                last,
            }),
            ServerState::Close { pipe, received, last } => state@ == (ServerView::Close {
                pipe,
                received: received_view(received),
                last,
            }),
            ServerState::Insert { path } => state@ == (ServerView::Insert { path: path@ }),
            ServerState::Refuse { reason } => state@ == (ServerView::Refuse { reason: reason@ }),
            ServerState::Stop => state@ == ServerView::Stop,
        },
{
}

/// The view of what was received shows the bytes, if there are any.
pub proof fn law_received_view(message: Vec<u8>)
    ensures
        received_view(Some(message)) == Some(message@),
        received_view(None) == None::<Seq<u8>>,
{
}

/// The view of a server event shows the event, with the bytes that were read.
pub proof fn law_server_event_view(event: ServerEvent)
    ensures
        match event {
            ServerEvent::Created { pipe } => event@ == (ServerEventView::Created { pipe }),
            ServerEvent::Connected { failure } => event@ == (ServerEventView::Connected {
                failure,
            }),
            ServerEvent::Received { chunk, failure } => event@ == (ServerEventView::Received {
                chunk: chunk@,
                failure,
            }),
            ServerEvent::Disconnected => event@ == ServerEventView::Disconnected,
            ServerEvent::Closed => event@ == ServerEventView::Closed,
            ServerEvent::Handled => event@ == ServerEventView::Handled,
        },
{
}

/// The view of a step of the descriptor shows the step, the definition and the descriptor.
pub proof fn law_descriptor_state_view(state: DescriptorState)
    ensures
        match state {
            DescriptorState::OpenToken => state@ == DescriptorView::OpenToken,
            DescriptorState::QuerySize => state@ == DescriptorView::QuerySize,
            DescriptorState::ReadUser { size } => state@ == (DescriptorView::ReadUser { size }),
            DescriptorState::AllocateSid => state@ == DescriptorView::AllocateSid,
            DescriptorState::CopySid => state@ == DescriptorView::CopySid,
            DescriptorState::Build { definition } => state@ == (DescriptorView::Build {
                definition: definition@,
            }),
            DescriptorState::FreeSid { descriptor } => state@ == (DescriptorView::FreeSid {
                descriptor,
            }),
            DescriptorState::CloseToken { descriptor } => state@ == (DescriptorView::CloseToken {
                descriptor,
            }),
            DescriptorState::Finished { descriptor } => state@ == (DescriptorView::Finished {
                descriptor,
            }),
        },
{
}

/// The view of what came of such a step shows the outcome.
pub proof fn law_descriptor_event_view(event: DescriptorEvent)
    ensures
        match event {
            DescriptorEvent::Performed { success } => event@ == (DescriptorEventView::Performed {
                success,
            }),
            DescriptorEvent::Size { bytes } => event@ == (DescriptorEventView::Size { bytes }),
            DescriptorEvent::Sid { text: Some(text) } => event@ == (DescriptorEventView::Sid {
                text: Some(text@),
            }),
            DescriptorEvent::Sid { text: None } => event@ == (DescriptorEventView::Sid {
                text: None,
            }),
            DescriptorEvent::Built { descriptor } => event@ == (DescriptorEventView::Built {
                descriptor,
            }),
        },
{
}

/// The view of a step of a creation shows the step, the arguments, the descriptor and the pipe.
pub proof fn law_creation_state_view(state: CreationState)
    ensures
        match state {
            CreationState::Descriptor { step } => state@ == (CreationView::Descriptor {
                step: step@,
            }),
            CreationState::Create { arguments } => state@ == (CreationView::Create {
                arguments: arguments@,
            }),
            CreationState::FreeDescriptor { descriptor, pipe } => state@ == (
            CreationView::FreeDescriptor { descriptor, pipe }),
            CreationState::Finished { pipe } => state@ == (CreationView::Finished { pipe }),
        },
{
}

/// The view of what came of such a step shows the outcome.
pub proof fn law_creation_event_view(event: CreationEvent)
    ensures
        match event {
            CreationEvent::Descriptor { event: inner } => event@ == (
            CreationEventView::Descriptor { event: inner@ }),
            CreationEvent::Created { pipe } => event@ == (CreationEventView::Created { pipe }),
            CreationEvent::Freed => event@ == CreationEventView::Freed,
        },
{
}

/// The view of a pipe's arguments shows each of them.
pub proof fn law_server_pipe_view(pipe: ServerPipe)
    ensures
        pipe@.name == pipe.name@,
        pipe@.open_mode == pipe.open_mode,
        pipe@.pipe_mode == pipe.pipe_mode,
        pipe@.max_instances == pipe.max_instances,
        pipe@.out_buffer_size == pipe.out_buffer_size,
        pipe@.in_buffer_size == pipe.in_buffer_size,
        pipe@.default_timeout_ms == pipe.default_timeout_ms,
        pipe@.descriptor == pipe.descriptor,
        pipe@.inherit_handle == pipe.inherit_handle,
        pipe@.warning == optional_view(pipe.warning),
{
}

/// The view of a failure to open a file shows its kind and its text.
pub proof fn law_open_failure_view(failure: OpenFailure)
    ensures
        failure@.kind == failure.kind,
        failure@.text == failure.text@,
        optional_failure_view(Some(failure)) == Some(failure@),
        optional_failure_view(None) is None,
{
}

/// The view of an insertion shows the step and the path, or the report.
pub proof fn law_insert_state_view(state: InsertState)
    ensures
        match state {
            InsertState::CheckReady { path } => state@ == (InsertView::CheckReady { path: path@ }),
            InsertState::EditSection { path } => state@ == (InsertView::EditSection {
                path: path@,
            }),
            InsertState::Finished { report } => state@ == (InsertView::Finished {
                report: report@,
            }),
        },
{
}

/// The view of a report shows the report and its message.
pub proof fn law_insert_report_view(report: InsertReport)
    ensures
        match report {
            InsertReport::Ignored { message } => report@ == (InsertReportView::Ignored {
                message: message@,
            }),
            InsertReport::NotReady { message } => report@ == (InsertReportView::NotReady {
                message: message@,
            }),
            InsertReport::Inserted => report@ == InsertReportView::Inserted,
            InsertReport::Failed { message } => report@ == (InsertReportView::Failed {
                message: message@,
            }),
            InsertReport::Unavailable { message } => report@ == (InsertReportView::Unavailable {
                message: message@,
            }),
        },
{
}

/// The view of what came of a step of an insertion shows the outcome.
pub proof fn law_insert_event_view(event: InsertEvent)
    ensures
        match event {
            InsertEvent::Ready { ready } => event@ == (InsertEventView::Ready { ready }),
            InsertEvent::SectionLeft { failure } => event@ == (InsertEventView::SectionLeft {
                failure: optional_view(failure),
            }),
            InsertEvent::SectionRefused { text } => event@ == (InsertEventView::SectionRefused {
                text: text@,
            }),
        },
        optional_event_view(Some(event)) == Some(event@),
        optional_event_view(None) is None,
{
}

/// The view of a line of the log shows its level and its message.
pub proof fn law_line_view(level: ReportLevel, message: String)
    ensures
        line_view(Some((level, message))) == Some((level, message@)),
        line_view(None) is None,
{
}

/// The view of a step inside the edit section shows the step, the file, the text and the place.
pub proof fn law_alias_phase_view(phase: AliasPhase)
    ensures
        match phase {
            AliasPhase::Open => phase@ == AliasPhaseView::Open,
            AliasPhase::CheckType { file } => phase@ == (AliasPhaseView::CheckType { file }),
            AliasPhase::QuerySize { file } => phase@ == (AliasPhaseView::QuerySize { file }),
            AliasPhase::Read { file } => phase@ == (AliasPhaseView::Read { file }),
            AliasPhase::Close { file, outcome: Ok(text) } => phase@ == (AliasPhaseView::Close {
                file,
                outcome: Ok(text@),
            }),
            AliasPhase::Close { file, outcome: Err(text) } => phase@ == (AliasPhaseView::Close {
                file,
                outcome: Err(text@),
            }),
            AliasPhase::FindCursor { alias } => phase@ == (AliasPhaseView::FindCursor {
                alias: alias@,
            }),
            AliasPhase::Create { alias, layer, frame, length } => phase@ == (
            AliasPhaseView::Create { alias: alias@, layer, frame, length }),
            AliasPhase::Finished { failure } => phase@ == (AliasPhaseView::Finished {
                failure: optional_view(failure),
            }),
        },
{
}

/// The view of what came of such a step shows the outcome.
pub proof fn law_alias_event_view(event: AliasEvent)
    ensures
        match event {
            AliasEvent::Opened { file: Ok(file) } => event@ == (AliasEventView::Opened {
                file: Ok(file),
            }),
            AliasEvent::Opened { file: Err(failure) } => event@ == (AliasEventView::Opened {
                file: Err(failure@),
            }),
            AliasEvent::Type { file_type } => event@ == (AliasEventView::Type { file_type }),
            AliasEvent::Size { bytes: Ok(bytes) } => event@ == (AliasEventView::Size {
                bytes: Ok(bytes),
            }),
            AliasEvent::Size { bytes: Err(error) } => event@ == (AliasEventView::Size {
                bytes: Err(error@),
            }),
            AliasEvent::Contents { text: Ok(text) } => event@ == (AliasEventView::Contents {
                text: Ok(text@),
            }),
            AliasEvent::Contents { text: Err(error) } => event@ == (AliasEventView::Contents {
                text: Err(error@),
            }),
            AliasEvent::Closed => event@ == AliasEventView::Closed,
            AliasEvent::Cursor { layer, frame } => event@ == (AliasEventView::Cursor {
                layer,
                frame,
            }),
            AliasEvent::Created { failure } => event@ == (AliasEventView::Created {
                failure: optional_view(failure),
            }),
        },
{
}

/// The view of a decision after a failed attempt shows the decision, with what is said.
pub proof fn law_retry_view(decision: RetryDecision)
    ensures
        match decision {
            RetryDecision::Retry { notice, wait } => decision@ == (RetryView::Retry {
                notice: notice@,
                wait,
            }),
            RetryDecision::GiveUp { message } => decision@ == (RetryView::GiveUp {
                message: message@,
            }),
        },
{
}

/// The view of lines shows each line, in order.
pub proof fn law_lines_view(lines: Seq<String>, i: int)
    ensures
        lines_view(lines).len() == lines.len(),
        0 <= i < lines.len() ==> lines_view(lines)[i] == lines[i]@,
{
}

/// The view of the client's state shows the step, the path, the pipe, the payload and the lines.
pub proof fn law_client_state_view(state: ClientState)
    ensures
        match state {
            ClientState::OpenFile { path } => state@ == (ClientView::OpenFile { path: path@ }),
            ClientState::Connect { path, attempt } => state@ == (ClientView::Connect {
                path: path@,
                attempt,
            }),
            ClientState::Wait { path, next_attempt, notice, wait } => state@ == (ClientView::Wait {
                path: path@,
                next_attempt,
                notice: notice@,
                wait,
            }),
            ClientState::Write { pipe, payload } => state@ == (ClientView::Write {
                pipe,
                payload: payload@,
            }),
            ClientState::Close { pipe, failure } => state@ == (ClientView::Close {
                pipe,
                failure: optional_view(failure),
            }),
            ClientState::Exit { code, lines } => state@ == (ClientView::Exit {
                code,
                lines: lines_view(lines@),
            }),
        },
{
}

/// The view of a client event shows the event, with what the system says.
pub proof fn law_client_event_view(event: ClientEvent)
    ensures
        match event {
            ClientEvent::Opened { failure } => event@ == (ClientEventView::Opened {
                failure: optional_failure_view(failure),
            }),
            ClientEvent::Connected { pipe } => event@ == (ClientEventView::Connected { pipe }),
            ClientEvent::ConnectFailed { hresult, error } => event@ == (
            ClientEventView::ConnectFailed { hresult, error: error@ }),
            ClientEvent::Waited => event@ == ClientEventView::Waited,
            ClientEvent::Written { written: Ok(count) } => event@ == (ClientEventView::Written {
                written: Ok(count),
            }),
            ClientEvent::Written { written: Err(error) } => event@ == (ClientEventView::Written {
                written: Err(error@),
            }),
            ClientEvent::Closed => event@ == ClientEventView::Closed,
        },
{
}

/// The view of what came of a transmission shows the count or the text of the error.
pub proof fn law_written_view(count: u32, error: String)
    ensures
        written_view(Ok(count)) == Ok::<u32, Seq<char>>(count),
        written_view(Err(error)) == Err::<u32, Seq<char>>(error@),
{
}

} // verus!
