//! The security descriptor that admits only the owner of the process to the pipe, and the
//! steps in which it is built.
use vstd::prelude::*;

use crate::protocol::wide_null;
use crate::runs::{lemma_earlier_event, lemma_last_event};
use crate::text::join_three;
use crate::utf16::text_units;

verus! {

/// The step that has to be carried out next.
pub enum DescriptorState {
    /// Open the token of the process.
    OpenToken,
    /// Ask how many bytes the token's user takes.
    QuerySize,
    /// Read the token's user into that many bytes.
    ReadUser { size: u32 },
    /// Turn the user's identifier into a string of the system.
    AllocateSid,
    /// Copy that string.
    CopySid,
    /// Build a descriptor from the definition, in UTF-16 and ended by a NUL.
    Build { definition: Vec<u16> },
    /// Free the system's string. The descriptor is there if it could be built.
    FreeSid { descriptor: Option<usize> },
    /// Close the token.
    CloseToken { descriptor: Option<usize> },
    /// Nothing: the end.
    Finished { descriptor: Option<usize> },
}

/// What came of a step.
pub enum DescriptorEvent {
    /// The step succeeded or not.
    Performed { success: bool },
    /// The number of bytes that the token's user takes.
    Size { bytes: u32 },
    /// The copy of the identifier's string, if it could be made.
    Sid { text: Option<String> },
    /// The address of the descriptor, if it could be built.
    Built { descriptor: Option<usize> },
}

/// The step that has to be carried out next, over plain values.
pub enum DescriptorView {
    OpenToken,
    QuerySize,
    ReadUser { size: u32 },
    AllocateSid,
    CopySid,
    Build { definition: Seq<u16> },
    FreeSid { descriptor: Option<usize> },
    CloseToken { descriptor: Option<usize> },
    Finished { descriptor: Option<usize> },
}

/// What came of a step, over plain values.
pub enum DescriptorEventView {
    Performed { success: bool },
    Size { bytes: u32 },
    Sid { text: Option<Seq<char>> },
    Built { descriptor: Option<usize> },
}

impl View for DescriptorState {
    type V = DescriptorView;

    open spec fn view(&self) -> DescriptorView {
        match *self {
            DescriptorState::OpenToken => DescriptorView::OpenToken,
            DescriptorState::QuerySize => DescriptorView::QuerySize,
            DescriptorState::ReadUser { size } => DescriptorView::ReadUser { size },
            DescriptorState::AllocateSid => DescriptorView::AllocateSid,
            DescriptorState::CopySid => DescriptorView::CopySid,
            DescriptorState::Build { definition } => DescriptorView::Build {
                definition: definition@,
            },
            DescriptorState::FreeSid { descriptor } => DescriptorView::FreeSid { descriptor },
            DescriptorState::CloseToken { descriptor } => DescriptorView::CloseToken { descriptor },
            DescriptorState::Finished { descriptor } => DescriptorView::Finished { descriptor },
        }
    }
}

impl View for DescriptorEvent {
    type V = DescriptorEventView;

    open spec fn view(&self) -> DescriptorEventView {
        match *self {
            DescriptorEvent::Performed { success } => DescriptorEventView::Performed { success },
            DescriptorEvent::Size { bytes } => DescriptorEventView::Size { bytes },
            DescriptorEvent::Sid { text: Some(text) } => DescriptorEventView::Sid {
                text: Some(text@),
            },
            DescriptorEvent::Sid { text: None } => DescriptorEventView::Sid { text: None },
            DescriptorEvent::Built { descriptor } => DescriptorEventView::Built { descriptor },
        }
    }
}

/// The definition of a protected access list with one entry: reading and writing for the user
/// with the identifier `sid`.
pub open spec fn owner_definition(sid: Seq<char>) -> Seq<char> {
    "D:P(A;;GRGW;;;"@ + sid + ")"@
}

/// The event is one that the step can end in.
pub open spec fn descriptor_event_fits(
    state: DescriptorView,
    event: DescriptorEventView,
) -> bool {
    match state {
        DescriptorView::QuerySize => event is Size,
        DescriptorView::CopySid => event is Sid,
        DescriptorView::Build { .. } => event is Built,
        DescriptorView::Finished { .. } => false,
        _ => event is Performed,
    }
}

/// The next step. What has been taken from the system is given back on every way to the end,
/// the string before the token. An event that does not fit the step changes nothing.
pub open spec fn descriptor_step(
    state: DescriptorView,
    event: DescriptorEventView,
) -> DescriptorView {
    if !descriptor_event_fits(state, event) {
        state
    } else {
        match state {
            DescriptorView::OpenToken => if event->success {
                DescriptorView::QuerySize
            } else {
                DescriptorView::Finished { descriptor: None }
            },
            DescriptorView::QuerySize => if event->bytes != 0 {
                DescriptorView::ReadUser { size: event->bytes }
            } else {
                DescriptorView::CloseToken { descriptor: None }
            },
            DescriptorView::ReadUser { .. } => if event->success {
                DescriptorView::AllocateSid
            } else {
                DescriptorView::CloseToken { descriptor: None }
            },
            DescriptorView::AllocateSid => if event->success {
                DescriptorView::CopySid
            } else {
                DescriptorView::CloseToken { descriptor: None }
            },
            DescriptorView::CopySid => match event->text {
                Some(sid) => DescriptorView::Build {
                    definition: text_units(owner_definition(sid)).push(0u16),
                },
                None => DescriptorView::FreeSid { descriptor: None },
            },
            DescriptorView::Build { .. } => DescriptorView::FreeSid { descriptor: event->descriptor },
            DescriptorView::FreeSid { descriptor } => DescriptorView::CloseToken { descriptor },
            DescriptorView::CloseToken { descriptor } => DescriptorView::Finished { descriptor },
            _ => state,
        }
    }
}

/// The step after a run of events.
pub open spec fn descriptor_run(events: Seq<DescriptorEventView>) -> DescriptorView
    decreases events.len(),
{
    if events.len() == 0 {
        DescriptorView::OpenToken
    } else {
        descriptor_step(descriptor_run(events.drop_last()), events.last())
    }
}

/// The token is open.
pub open spec fn holds_token(state: DescriptorView) -> bool {
    !(state is OpenToken) && !(state is Finished)
}

/// The system's string is allocated.
pub open spec fn holds_sid(state: DescriptorView) -> bool {
    state is CopySid || state is Build || state is FreeSid
}

/// The event opens the token.
pub open spec fn opens_token(state: DescriptorView, event: DescriptorEventView) -> bool {
    state is OpenToken && event == (DescriptorEventView::Performed { success: true })
}

/// The event closes the token.
pub open spec fn closes_token(state: DescriptorView, event: DescriptorEventView) -> bool {
    state is CloseToken && event is Performed
}

/// The event allocates the system's string.
pub open spec fn allocates_sid(state: DescriptorView, event: DescriptorEventView) -> bool {
    state is AllocateSid && event == (DescriptorEventView::Performed { success: true })
}

/// The event frees the system's string.
pub open spec fn frees_sid(state: DescriptorView, event: DescriptorEventView) -> bool {
    state is FreeSid && event is Performed
}

/// The number of tokens opened in a run.
pub open spec fn tokens_opened(events: Seq<DescriptorEventView>) -> nat
    decreases events.len(),
{
    if events.len() == 0 {
        0
    } else {
        tokens_opened(events.drop_last()) + if opens_token(
            descriptor_run(events.drop_last()),
            events.last(),
        ) {
            1nat
        } else {
            0nat
        }
    }
}

/// The number of tokens closed in a run.
pub open spec fn tokens_closed(events: Seq<DescriptorEventView>) -> nat
    decreases events.len(),
{
    if events.len() == 0 {
        0
    } else {
        tokens_closed(events.drop_last()) + if closes_token(
            descriptor_run(events.drop_last()),
            events.last(),
        ) {
            1nat
        } else {
            0nat
        }
    }
}

/// The number of strings that the system allocated in a run.
pub open spec fn sids_allocated(events: Seq<DescriptorEventView>) -> nat
    decreases events.len(),
{
    if events.len() == 0 {
        0
    } else {
        sids_allocated(events.drop_last()) + if allocates_sid(
            descriptor_run(events.drop_last()),
            events.last(),
        ) {
            1nat
        } else {
            0nat
        }
    }
}

/// The number of strings freed in a run.
pub open spec fn sids_freed(events: Seq<DescriptorEventView>) -> nat
    decreases events.len(),
{
    if events.len() == 0 {
        0
    } else {
        sids_freed(events.drop_last()) + if frees_sid(
            descriptor_run(events.drop_last()),
            events.last(),
        ) {
            1nat
        } else {
            0nat
        }
    }
}

/// What is taken from the system is given back once: at any time one token more has been opened
/// than closed if one is held, and otherwise as many, and the same holds of the strings. At most
/// one of each is taken, the string is held only while the token is, and at the end neither is
/// held, so that as many were given back as were taken.
pub proof fn law_resources_are_given_back(events: Seq<DescriptorEventView>)
    ensures
        tokens_opened(events) <= 1,
        tokens_opened(events) == tokens_closed(events) + if holds_token(descriptor_run(events)) {
            1nat
        } else {
            0nat
        },
        sids_allocated(events) <= 1,
        sids_allocated(events) == sids_freed(events) + if holds_sid(descriptor_run(events)) {
            1nat
        } else {
            0nat
        },
        holds_sid(descriptor_run(events)) ==> holds_token(descriptor_run(events)),
        descriptor_run(events) is Finished ==> tokens_opened(events) == tokens_closed(events)
            && sids_allocated(events) == sids_freed(events),
{
    lemma_resources(events);
}

/// How many tokens and strings have been taken and given back at each point of a run.
proof fn lemma_resources(events: Seq<DescriptorEventView>)
    ensures
        tokens_opened(events) == tokens_closed(events) + if holds_token(descriptor_run(events)) {
            1nat
        } else {
            0nat
        },
        sids_allocated(events) == sids_freed(events) + if holds_sid(descriptor_run(events)) {
            1nat
        } else {
            0nat
        },
        tokens_opened(events) <= 1,
        sids_allocated(events) <= 1,
        descriptor_run(events) is OpenToken ==> tokens_opened(events) == 0,
        descriptor_rank(descriptor_run(events)) >= 5 ==> sids_allocated(events) == 0,
    decreases events.len(),
{
    if events.len() > 0 {
        lemma_resources(events.drop_last());
    }
}

/// The steps that are left, at most.
pub open spec fn descriptor_rank(state: DescriptorView) -> nat {
    match state {
        DescriptorView::OpenToken => 8,
        DescriptorView::QuerySize => 7,
        DescriptorView::ReadUser { .. } => 6,
        DescriptorView::AllocateSid => 5,
        DescriptorView::CopySid => 4,
        DescriptorView::Build { .. } => 3,
        DescriptorView::FreeSid { .. } => 2,
        DescriptorView::CloseToken { .. } => 1,
        DescriptorView::Finished { .. } => 0,
    }
}

/// Each step that is carried out brings the end closer.
pub proof fn law_descriptor_ends(state: DescriptorView, event: DescriptorEventView)
    requires
        descriptor_event_fits(state, event),
    ensures
        descriptor_rank(descriptor_step(state, event)) < descriptor_rank(state),
        descriptor_rank(state) == 0 <==> state is Finished,
{
}

/// A descriptor comes only from a successful build, and is the one that was built.
pub proof fn law_built_only_by_build(
    state: DescriptorView,
    event: DescriptorEventView,
    descriptor: usize,
)
    requires
        descriptor_step(state, event) == (DescriptorView::FreeSid {
            descriptor: Some(descriptor),
        }),
        !(state is FreeSid),
    ensures
        state is Build,
        event == (DescriptorEventView::Built { descriptor: Some(descriptor) }),
{
}

/// In every run, what is built from is a definition that names an identifier that the system
/// gave, and no other.
pub proof fn law_definition_names_the_owner(
    events: Seq<DescriptorEventView>,
    definition: Seq<u16>,
)
    requires
        descriptor_run(events) == (DescriptorView::Build { definition }),
    ensures
        exists|sid: Seq<char>|
            #![trigger owner_definition(sid)]
            events.contains(DescriptorEventView::Sid { text: Some(sid) }) && definition
                == text_units(owner_definition(sid)).push(0u16),
    decreases events.len(),
{
    let front = events.drop_last();
    let before = descriptor_run(front);
    lemma_last_event(events);
    if before is Build {
        law_definition_names_the_owner(front, definition);
        let sid = choose|sid: Seq<char>|
            #![trigger owner_definition(sid)]
            front.contains(DescriptorEventView::Sid { text: Some(sid) }) && definition
                == text_units(owner_definition(sid)).push(0u16);
        lemma_earlier_event(events, DescriptorEventView::Sid { text: Some(sid) });
    } else {
        let sid = events.last()->text->0;
        assert(events.last() == (DescriptorEventView::Sid { text: Some(sid) }));
        assert(definition == text_units(owner_definition(sid)).push(0u16));
    }
}

/// When every step succeeds, the descriptor is there at the end.
pub proof fn law_success_builds_descriptor(
    size: u32,
    sid: Seq<char>,
    descriptor: usize,
    freed: bool,
    closed: bool,
)
    requires
        size != 0,
    ensures
        descriptor_run(
            seq![
                DescriptorEventView::Performed { success: true },
                DescriptorEventView::Size { bytes: size },
                DescriptorEventView::Performed { success: true },
                DescriptorEventView::Performed { success: true },
                DescriptorEventView::Sid { text: Some(sid) },
                DescriptorEventView::Built { descriptor: Some(descriptor) },
                DescriptorEventView::Performed { success: freed },
                DescriptorEventView::Performed { success: closed },
            ],
        ) == (DescriptorView::Finished { descriptor: Some(descriptor) }),
{
    let events = seq![
        DescriptorEventView::Performed { success: true },
        DescriptorEventView::Size { bytes: size },
        DescriptorEventView::Performed { success: true },
        DescriptorEventView::Performed { success: true },
        DescriptorEventView::Sid { text: Some(sid) },
        DescriptorEventView::Built { descriptor: Some(descriptor) },
        DescriptorEventView::Performed { success: freed },
        DescriptorEventView::Performed { success: closed },
    ];
    let e7 = events.drop_last();
    let e6 = e7.drop_last();
    let e5 = e6.drop_last();
    let e4 = e5.drop_last();
    let e3 = e4.drop_last();
    let e2 = e3.drop_last();
    let e1 = e2.drop_last();
    assert(descriptor_run(e1.drop_last()) is OpenToken);
    assert(descriptor_run(e1) is QuerySize);
    assert(descriptor_run(e2) is ReadUser);
    assert(descriptor_run(e3) is AllocateSid);
    assert(descriptor_run(e4) is CopySid);
    assert(descriptor_run(e5) is Build);
    assert(descriptor_run(e6) == (DescriptorView::FreeSid { descriptor: Some(descriptor) }));
    assert(descriptor_run(e7) == (DescriptorView::CloseToken { descriptor: Some(descriptor) }));
}

/// Each step that succeeds leads to the next: the token is opened, the size asked for, the user
/// read into that many bytes, the string allocated and copied. The descriptor is then built from
/// a definition that gives the rights to read and to write to the user whose identifier was
/// copied and to no one else, in UTF-16 and ended by a NUL. The string is freed and the token
/// closed after that, whether there is a descriptor or not, and whatever comes of it.
pub proof fn law_descriptor_order(
    size: u32,
    sid: Seq<char>,
    definition: Seq<u16>,
    descriptor: Option<usize>,
    success: bool,
)
    ensures
        descriptor_step(
            DescriptorView::OpenToken,
            DescriptorEventView::Performed { success: true },
        ) == DescriptorView::QuerySize,
        size != 0 ==> descriptor_step(
            DescriptorView::QuerySize,
            DescriptorEventView::Size { bytes: size },
        ) == (DescriptorView::ReadUser { size }),
        descriptor_step(
            DescriptorView::ReadUser { size },
            DescriptorEventView::Performed { success: true },
        ) == DescriptorView::AllocateSid,
        descriptor_step(
            DescriptorView::AllocateSid,
            DescriptorEventView::Performed { success: true },
        ) == DescriptorView::CopySid,
        descriptor_step(
            DescriptorView::CopySid,
            DescriptorEventView::Sid { text: Some(sid) },
        ) == (DescriptorView::Build {
            definition: text_units("D:P(A;;GRGW;;;"@ + sid + ")"@).push(0u16),
        }),
        descriptor_step(
            DescriptorView::Build { definition },
            DescriptorEventView::Built { descriptor },
        ) == (DescriptorView::FreeSid { descriptor }),
        descriptor_step(
            DescriptorView::FreeSid { descriptor },
            DescriptorEventView::Performed { success },
        ) == (DescriptorView::CloseToken { descriptor }),
        descriptor_step(
            DescriptorView::CloseToken { descriptor },
            DescriptorEventView::Performed { success },
        ) == (DescriptorView::Finished { descriptor }),
{
}

/// A step that fails ends in no descriptor, with what is held given back first: nothing if the
/// token was not opened, the token if there is no string yet, and the string before the token.
pub proof fn law_descriptor_failures(size: u32)
    ensures
        descriptor_step(
            DescriptorView::OpenToken,
            DescriptorEventView::Performed { success: false },
        ) == (DescriptorView::Finished { descriptor: None }),
        descriptor_step(DescriptorView::QuerySize, DescriptorEventView::Size { bytes: 0 }) == (
        DescriptorView::CloseToken { descriptor: None }),
        descriptor_step(
            DescriptorView::ReadUser { size },
            DescriptorEventView::Performed { success: false },
        ) == (DescriptorView::CloseToken { descriptor: None }),
        descriptor_step(
            DescriptorView::AllocateSid,
            DescriptorEventView::Performed { success: false },
        ) == (DescriptorView::CloseToken { descriptor: None }),
        descriptor_step(DescriptorView::CopySid, DescriptorEventView::Sid { text: None }) == (
        DescriptorView::FreeSid { descriptor: None }),
{
}

/// What came of something that was not to be done changes nothing, and the end stays the end.
pub proof fn law_unfit_descriptor_event(state: DescriptorView, event: DescriptorEventView)
    requires
        state is QuerySize ==> !(event is Size),
        state is CopySid ==> !(event is Sid),
        state is Build ==> !(event is Built),
        event is Performed ==> state is QuerySize || state is CopySid || state is Build
            || state is Finished,
    ensures
        descriptor_step(state, event) == state,
{
}

/// The definition of an access list that admits the user with the identifier `sid` only.
pub fn owner_sddl(sid: &str) -> (definition: String)
    ensures
        definition@ == owner_definition(sid@),
        definition@ == "D:P(A;;GRGW;;;"@ + sid@ + ")"@,
{
    join_three("D:P(A;;GRGW;;;", sid, ")")
}

impl DescriptorState {
    /// The first step.
    pub fn start() -> (state: DescriptorState)
        ensures
            state@ == DescriptorView::OpenToken,
    {
        DescriptorState::OpenToken
    }

    /// The step that follows once `event` came of this one.
    pub fn build_owner_security_descriptor(self, event: DescriptorEvent) -> (next: DescriptorState)
        ensures
            next@ == descriptor_step(self@, event@),
    {
        match (self, event) {
            (DescriptorState::OpenToken, DescriptorEvent::Performed { success }) => {
                if success {
                    DescriptorState::QuerySize
                } else {
                    DescriptorState::Finished { descriptor: None }
                }
            },
            (DescriptorState::QuerySize, DescriptorEvent::Size { bytes }) => {
                if bytes != 0 {
                    DescriptorState::ReadUser { size: bytes }
                } else {
                    DescriptorState::CloseToken { descriptor: None }
                }
            },
            (DescriptorState::ReadUser { size: _ }, DescriptorEvent::Performed { success }) => {
                if success {
                    DescriptorState::AllocateSid
                } else {
                    DescriptorState::CloseToken { descriptor: None }
                }
            },
            (DescriptorState::AllocateSid, DescriptorEvent::Performed { success }) => {
                if success {
                    DescriptorState::CopySid
                } else {
                    DescriptorState::CloseToken { descriptor: None }
                }
            },
            (DescriptorState::CopySid, DescriptorEvent::Sid { text }) => match text {
                Some(sid) => DescriptorState::Build {
                    definition: wide_null(owner_sddl(sid.as_str()).as_str()),
                },
                None => DescriptorState::FreeSid { descriptor: None },
            },
            (DescriptorState::Build { definition: _ }, DescriptorEvent::Built { descriptor }) => {
                DescriptorState::FreeSid { descriptor }
            },
            (
                DescriptorState::FreeSid { descriptor },
                DescriptorEvent::Performed { success: _ },
            ) => DescriptorState::CloseToken { descriptor },
            (
                DescriptorState::CloseToken { descriptor },
                DescriptorEvent::Performed { success: _ },
            ) => DescriptorState::Finished { descriptor },
            (state, _) => state,
        }
    }
}

} // verus!
