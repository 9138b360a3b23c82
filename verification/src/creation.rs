//! Creating a pipe instance: the descriptor is built, the pipe is created with it, and the
//! descriptor is freed.
use vstd::prelude::*;

use crate::pipes::{create_server_pipe, server_pipe, ServerPipe, ServerPipeView};
use crate::plugin::AliasInserterPlugin;
use crate::runs::{lemma_earlier_event, lemma_last_event};
use crate::security::{
    descriptor_event_fits, descriptor_rank, descriptor_run, descriptor_step, holds_sid,
    holds_token, law_descriptor_ends, law_resources_are_given_back, sids_allocated, sids_freed,
    tokens_closed, tokens_opened, DescriptorEvent, DescriptorEventView, DescriptorState,
    DescriptorView,
};
use crate::server::{server_step, ServerEventView, ServerView};
use crate::win32::INVALID_HANDLE_VALUE;

verus! {

/// What has to be done next to create a pipe instance.
pub enum CreationState {
    /// Carry out the next step in which the descriptor is built.
    Descriptor { step: DescriptorState },
    /// Create the pipe with these arguments.
    Create { arguments: ServerPipe },
    /// Free the descriptor. `pipe` is what the creation gave.
    FreeDescriptor { descriptor: usize, pipe: isize },
    /// Nothing: the end. `pipe` is what the creation gave.
    Finished { pipe: isize },
}

/// What came of it.
pub enum CreationEvent {
    /// What came of a step in which the descriptor is built.
    Descriptor { event: DescriptorEvent },
    /// The creation gave `pipe`, which may be `INVALID_HANDLE_VALUE`.
    Created { pipe: isize },
    /// The descriptor has been freed.
    Freed,
}

/// What has to be done next, over plain values.
pub enum CreationView {
    Descriptor { step: DescriptorView },
    Create { arguments: ServerPipeView },
    FreeDescriptor { descriptor: usize, pipe: isize },
    Finished { pipe: isize },
}

/// What came of it, over plain values.
pub enum CreationEventView {
    Descriptor { event: DescriptorEventView },
    Created { pipe: isize },
    Freed,
}

impl View for CreationState {
    type V = CreationView;

    open spec fn view(&self) -> CreationView {
        match *self {
            CreationState::Descriptor { step } => CreationView::Descriptor { step: step@ },
            CreationState::Create { arguments } => CreationView::Create { arguments: arguments@ },
            CreationState::FreeDescriptor { descriptor, pipe } => CreationView::FreeDescriptor {
                descriptor,
                pipe,
            },
            CreationState::Finished { pipe } => CreationView::Finished { pipe },
        }
    }
}

impl View for CreationEvent {
    type V = CreationEventView;

    open spec fn view(&self) -> CreationEventView {
        match *self {
            CreationEvent::Descriptor { event } => CreationEventView::Descriptor { event: event@ },
            CreationEvent::Created { pipe } => CreationEventView::Created { pipe },
            CreationEvent::Freed => CreationEventView::Freed,
        }
    }
}

/// The first thing to do.
pub open spec fn creation_start() -> CreationView {
    CreationView::Descriptor { step: DescriptorView::OpenToken }
}

/// What has to be done when the building of the descriptor is at `step`: at its end the pipe is
/// created, with the descriptor or without.
pub open spec fn after_descriptor(step: DescriptorView) -> CreationView {
    match step {
        DescriptorView::Finished { descriptor } => CreationView::Create {
            arguments: server_pipe(descriptor),
        },
        _ => CreationView::Descriptor { step },
    }
}

/// A descriptor that takes up memory: the null address does not.
pub open spec fn to_be_freed(descriptor: Option<usize>) -> Option<usize> {
    if descriptor == Some(0usize) {
        None
    } else {
        descriptor
    }
}

/// What has to be done once a pipe with `descriptor` has been created.
pub open spec fn after_created(descriptor: Option<usize>, pipe: isize) -> CreationView {
    match to_be_freed(descriptor) {
        Some(descriptor) => CreationView::FreeDescriptor { descriptor, pipe },
        None => CreationView::Finished { pipe },
    }
}

/// What has to be done next. An event that does not fit the state changes nothing.
pub open spec fn creation_step(state: CreationView, event: CreationEventView) -> CreationView {
    match (state, event) {
        (
            CreationView::Descriptor { step },
            CreationEventView::Descriptor { event },
        ) => after_descriptor(descriptor_step(step, event)),
        (CreationView::Create { arguments }, CreationEventView::Created { pipe }) => after_created(
            arguments.descriptor,
            pipe,
        ),
        (
            CreationView::FreeDescriptor { pipe, .. },
            CreationEventView::Freed,
        ) => CreationView::Finished { pipe },
        _ => state,
    }
}

/// The creation after a run of events.
pub open spec fn creation_run(events: Seq<CreationEventView>) -> CreationView
    decreases events.len(),
{
    if events.len() == 0 {
        creation_start()
    } else {
        creation_step(creation_run(events.drop_last()), events.last())
    }
}

/// The descriptor that is there and has not been freed.
pub open spec fn held_descriptor(state: CreationView) -> Option<usize> {
    match state {
        CreationView::Descriptor { step } => match step {
            DescriptorView::FreeSid { descriptor } => to_be_freed(descriptor),
            DescriptorView::CloseToken { descriptor } => to_be_freed(descriptor),
            DescriptorView::Finished { descriptor } => to_be_freed(descriptor),
            _ => None,
        },
        CreationView::Create { arguments } => to_be_freed(arguments.descriptor),
        CreationView::FreeDescriptor { descriptor, .. } => to_be_freed(Some(descriptor)),
        CreationView::Finished { .. } => None,
    }
}

/// The event builds a descriptor that has to be freed.
pub open spec fn builds_descriptor(state: CreationView, event: CreationEventView) -> bool {
    &&& state matches CreationView::Descriptor { step }
    &&& step is Build
    &&& event matches CreationEventView::Descriptor { event: built }
    &&& built matches DescriptorEventView::Built { descriptor }
    &&& to_be_freed(descriptor) is Some
}

/// The event frees the descriptor.
pub open spec fn frees_descriptor(state: CreationView, event: CreationEventView) -> bool {
    state is FreeDescriptor && event is Freed
}

/// In every run, a descriptor is held from the step that builds it to the one that frees it: it
/// stays the same at every other step, so that the pipe is created while it is held. At the end
/// none is held.
pub proof fn law_descriptor_is_held(events: Seq<CreationEventView>, event: CreationEventView)
    ensures
        ({
            let state = creation_run(events);
            let next = creation_run(events.push(event));
            &&& builds_descriptor(state, event) ==> held_descriptor(state) is None && event == (
            CreationEventView::Descriptor {
                event: DescriptorEventView::Built { descriptor: held_descriptor(next) },
            })
            &&& frees_descriptor(state, event) ==> held_descriptor(state) == Some(
                state->FreeDescriptor_descriptor,
            ) && held_descriptor(next) is None
            &&& !builds_descriptor(state, event) && !frees_descriptor(state, event)
                ==> held_descriptor(next) == held_descriptor(state)
            &&& state is Finished ==> held_descriptor(state) is None
        }),
{
    assert(events.push(event).drop_last() =~= events);
    lemma_creation_history(events);
}

/// The number of descriptors built in a run that have to be freed.
pub open spec fn descriptors_built(events: Seq<CreationEventView>) -> nat
    decreases events.len(),
{
    if events.len() == 0 {
        0
    } else {
        descriptors_built(events.drop_last()) + if builds_descriptor(
            creation_run(events.drop_last()),
            events.last(),
        ) {
            1nat
        } else {
            0nat
        }
    }
}

/// The number of descriptors freed in a run.
pub open spec fn descriptors_freed(events: Seq<CreationEventView>) -> nat
    decreases events.len(),
{
    if events.len() == 0 {
        0
    } else {
        descriptors_freed(events.drop_last()) + if frees_descriptor(
            creation_run(events.drop_last()),
            events.last(),
        ) {
            1nat
        } else {
            0nat
        }
    }
}

/// At most one descriptor is built, and each that is built is freed once: at any time one more
/// has been built than freed if one is held, and otherwise as many. At the end as many have
/// been freed as were built.
pub proof fn law_descriptor_is_freed_once(events: Seq<CreationEventView>)
    ensures
        descriptors_built(events) <= 1,
        descriptors_built(events) == descriptors_freed(events) + if held_descriptor(
            creation_run(events),
        ) is Some {
            1nat
        } else {
            0nat
        },
        creation_run(events) is Finished ==> descriptors_built(events) == descriptors_freed(
            events,
        ),
{
    lemma_descriptor_count(events);
}

/// How many descriptors have been built and freed at each point of a run.
proof fn lemma_descriptor_count(events: Seq<CreationEventView>)
    ensures
        descriptors_built(events) <= 1,
        descriptors_built(events) == descriptors_freed(events) + if held_descriptor(
            creation_run(events),
        ) is Some {
            1nat
        } else {
            0nat
        },
        (creation_run(events) matches CreationView::Descriptor { step } && descriptor_rank(step)
            >= 3) ==> descriptors_built(events) == 0,
    decreases events.len(),
{
    if events.len() > 0 {
        let front = events.drop_last();
        lemma_descriptor_count(front);
        lemma_creation_history(front);
        match (creation_run(front), events.last()) {
            (
                CreationView::Descriptor { step },
                CreationEventView::Descriptor { event },
            ) => {
                if descriptor_event_fits(step, event) {
                    law_descriptor_ends(step, event);
                }
            },
            _ => {},
        }
    }
}

/// The descriptor came from a step that built it.
pub open spec fn was_built(events: Seq<CreationEventView>, descriptor: usize) -> bool {
    events.contains(
        CreationEventView::Descriptor {
            event: DescriptorEventView::Built { descriptor: Some(descriptor) },
        },
    )
}

/// What has happened at each point of a run.
proof fn lemma_creation_history(events: Seq<CreationEventView>)
    ensures
        match creation_run(events) {
            CreationView::Descriptor { step } => {
                &&& !(step is Finished)
                &&& step matches DescriptorView::FreeSid { descriptor: Some(descriptor) }
                    ==> was_built(events, descriptor)
                &&& step matches DescriptorView::CloseToken { descriptor: Some(descriptor) }
                    ==> was_built(events, descriptor)
            },
            CreationView::Create { arguments } => {
                &&& arguments == server_pipe(arguments.descriptor)
                &&& arguments.descriptor matches Some(descriptor) ==> was_built(events, descriptor)
            },
            CreationView::FreeDescriptor { descriptor, pipe } => {
                &&& descriptor != 0
                &&& was_built(events, descriptor)
                &&& events.contains(CreationEventView::Created { pipe })
            },
            CreationView::Finished { pipe } => events.contains(CreationEventView::Created { pipe }),
        },
    decreases events.len(),
{
    if events.len() > 0 {
        let front = events.drop_last();
        lemma_creation_history(front);
        lemma_last_event(events);
        assert forall|descriptor: usize| was_built(front, descriptor) implies was_built(
            events,
            descriptor,
        ) by {
            lemma_earlier_event(
                events,
                CreationEventView::Descriptor {
                    event: DescriptorEventView::Built { descriptor: Some(descriptor) },
                },
            );
        }
        match creation_run(front) {
            CreationView::FreeDescriptor { pipe, .. } => {
                lemma_earlier_event(events, CreationEventView::Created { pipe });
            },
            CreationView::Finished { pipe } => {
                lemma_earlier_event(events, CreationEventView::Created { pipe });
            },
            _ => {},
        }
    }
}

/// In every run, the pipe is created with the arguments for the descriptor that was built, or
/// for none: the attributes hold that descriptor and no other, and the handle is not inherited.
pub proof fn law_pipe_gets_the_descriptor(
    events: Seq<CreationEventView>,
    arguments: ServerPipeView,
)
    requires
        creation_run(events) == (CreationView::Create { arguments }),
    ensures
        arguments == server_pipe(arguments.descriptor),
        arguments.descriptor matches Some(descriptor) ==> was_built(events, descriptor),
        !arguments.inherit_handle,
{
    lemma_creation_history(events);
}

/// What came of the steps in which the descriptor is built, in a run.
pub open spec fn descriptor_events(events: Seq<CreationEventView>) -> Seq<DescriptorEventView>
    decreases events.len(),
{
    if events.len() == 0 {
        seq![]
    } else {
        match events.last() {
            CreationEventView::Descriptor { event } => descriptor_events(events.drop_last()).push(
                event,
            ),
            _ => descriptor_events(events.drop_last()),
        }
    }
}

/// A creation goes through the building of a descriptor and nothing else before it creates the
/// pipe: it stands where the events of the building lead, the building is over before the pipe
/// is created, so that neither token nor string is held then, and the pipe gets its outcome.
pub proof fn law_creation_builds_descriptor_first(events: Seq<CreationEventView>)
    ensures
        match creation_run(events) {
            CreationView::Descriptor { step } => step == descriptor_run(descriptor_events(events)),
            CreationView::Create { arguments } => descriptor_run(descriptor_events(events)) == (
            DescriptorView::Finished { descriptor: arguments.descriptor }),
            _ => descriptor_run(descriptor_events(events)) is Finished,
        },
        !(creation_run(events) is Descriptor) ==> !holds_token(
            descriptor_run(descriptor_events(events)),
        ) && !holds_sid(descriptor_run(descriptor_events(events))),
        !(creation_run(events) is Descriptor) ==> tokens_opened(descriptor_events(events))
            == tokens_closed(descriptor_events(events)) && sids_allocated(
            descriptor_events(events),
        ) == sids_freed(descriptor_events(events)),
    decreases events.len(),
{
    law_resources_are_given_back(descriptor_events(events));
    if events.len() > 0 {
        law_creation_builds_descriptor_first(events.drop_last());
        match events.last() {
            CreationEventView::Descriptor { event } => {
                assert(descriptor_events(events).drop_last() =~= descriptor_events(
                    events.drop_last(),
                ));
            },
            _ => {},
        }
    }
}

/// A pipe is created whether the descriptor could be built or not: the step that ends the
/// building leads to the creation, with the descriptor, or with none and a warning.
pub proof fn law_creation_follows_descriptor(
    step: DescriptorView,
    event: DescriptorEventView,
    descriptor: Option<usize>,
)
    requires
        descriptor_step(step, event) == (DescriptorView::Finished { descriptor }),
    ensures
        creation_step(
            CreationView::Descriptor { step },
            CreationEventView::Descriptor { event },
        ) == (CreationView::Create { arguments: server_pipe(descriptor) }),
        server_pipe(descriptor).descriptor == descriptor,
        server_pipe(descriptor).warning is Some <==> descriptor is None,
{
}

/// In every run, the descriptor is freed only after the pipe has been created, and it is the
/// one that was built.
pub proof fn law_descriptor_is_freed_after_creation(
    events: Seq<CreationEventView>,
    descriptor: usize,
    pipe: isize,
)
    requires
        creation_run(events) == (CreationView::FreeDescriptor { descriptor, pipe }),
    ensures
        was_built(events, descriptor),
        events.contains(CreationEventView::Created { pipe }),
{
    lemma_creation_history(events);
}

/// The server waits for clients on the pipe that the creation gave, if that is one, and ends
/// otherwise; by then no descriptor is held.
pub proof fn law_created_pipe_is_served(
    events: Seq<CreationEventView>,
    pipe: isize,
    plugin: AliasInserterPlugin,
)
    requires
        creation_run(events) == (CreationView::Finished { pipe }),
    ensures
        events.contains(CreationEventView::Created { pipe }),
        descriptors_built(events) == descriptors_freed(events),
        server_step(ServerView::Create, ServerEventView::Created { pipe }, plugin) == (
            if pipe == INVALID_HANDLE_VALUE {
                ServerView::Stop
            } else {
                ServerView::Connect { pipe }
            },
            plugin,
        ),
{
    lemma_creation_history(events);
    lemma_descriptor_count(events);
}

/// The event is one that the state can end in.
pub open spec fn creation_event_fits(state: CreationView, event: CreationEventView) -> bool {
    match state {
        CreationView::Descriptor { step } => event matches CreationEventView::Descriptor {
            event: inner,
        } && descriptor_event_fits(step, inner),
        CreationView::Create { .. } => event is Created,
        CreationView::FreeDescriptor { .. } => event is Freed,
        CreationView::Finished { .. } => false,
    }
}

/// The steps that are left, at most.
pub open spec fn creation_rank(state: CreationView) -> nat {
    match state {
        CreationView::Descriptor { step } => descriptor_rank(step) + 3,
        CreationView::Create { .. } => 2,
        CreationView::FreeDescriptor { .. } => 1,
        CreationView::Finished { .. } => 0,
    }
}

/// Each step that is carried out brings the end of the creation closer.
pub proof fn law_creation_ends(state: CreationView, event: CreationEventView)
    requires
        creation_event_fits(state, event),
    ensures
        creation_rank(creation_step(state, event)) < creation_rank(state),
        creation_rank(state) == 0 <==> state is Finished,
{
    match (state, event) {
        (CreationView::Descriptor { step }, CreationEventView::Descriptor { event }) => {
            law_descriptor_ends(step, event);
        },
        _ => {},
    }
}

/// The steps of a creation. It starts with the opening of the token. As long as the building of
/// the descriptor is not at its end it goes on with that; at its end the pipe is created with
/// what came of it. Once a pipe has been created with a descriptor other than the null address,
/// that descriptor is freed, whether the pipe is one or not; without one there is nothing to
/// free. What the creation gave is what it ends with.
pub proof fn law_creation_order(
    step: DescriptorView,
    event: DescriptorEventView,
    arguments: ServerPipeView,
    descriptor: usize,
    pipe: isize,
)
    ensures
        creation_start() == (CreationView::Descriptor { step: DescriptorView::OpenToken }),
        creation_step(
            CreationView::Descriptor { step },
            CreationEventView::Descriptor { event },
        ) == match descriptor_step(step, event) {
            DescriptorView::Finished { descriptor: built } => CreationView::Create {
                arguments: server_pipe(built),
            },
            next => CreationView::Descriptor { step: next },
        },
        arguments.descriptor == Some(descriptor) && descriptor != 0 ==> creation_step(
            CreationView::Create { arguments },
            CreationEventView::Created { pipe },
        ) == (CreationView::FreeDescriptor { descriptor, pipe }),
        arguments.descriptor is None || arguments.descriptor == Some(0usize) ==> creation_step(
            CreationView::Create { arguments },
            CreationEventView::Created { pipe },
        ) == (CreationView::Finished { pipe }),
        creation_step(
            CreationView::FreeDescriptor { descriptor, pipe },
            CreationEventView::Freed,
        ) == (CreationView::Finished { pipe }),
{
}

/// What came of something that was not to be done changes nothing, and the end stays the end.
pub proof fn law_unfit_creation_event(state: CreationView, event: CreationEventView)
    requires
        !(state is Descriptor && event is Descriptor),
        !(state is Create && event is Created),
        !(state is FreeDescriptor && event is Freed),
    ensures
        creation_step(state, event) == state,
{
}

impl CreationState {
    /// The first thing to do.
    pub fn start() -> (state: CreationState)
        ensures
            state@ == creation_start(),
    {
        CreationState::Descriptor { step: DescriptorState::start() }
    }

    /// What has to be done once `event` came of this.
    pub fn advance(self, event: CreationEvent) -> (next: CreationState)
        ensures
            next@ == creation_step(self@, event@),
    {
        match (self, event) {
            (CreationState::Descriptor { step }, CreationEvent::Descriptor { event }) => {
                match step.build_owner_security_descriptor(event) {
                    DescriptorState::Finished { descriptor } => CreationState::Create {
                        arguments: create_server_pipe(descriptor),
                    },
                    step => CreationState::Descriptor { step },
                }
            },
            (CreationState::Create { arguments }, CreationEvent::Created { pipe }) => {
                match arguments.descriptor {
                    Some(descriptor) if descriptor != 0 => CreationState::FreeDescriptor {
                        descriptor,
                        pipe,
                    },
                    _ => CreationState::Finished { pipe },
                }
            },
            (CreationState::FreeDescriptor { descriptor: _, pipe }, CreationEvent::Freed) => {
                CreationState::Finished { pipe }
            },
            (state, _) => state,
        }
    }
}

} // verus!
