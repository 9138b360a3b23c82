//! The plugin: what it tells the host about itself, what its threads share, and how it shuts
//! down.
use vstd::prelude::*;

use crate::text::{join_three, optional_view};

verus! {

/// The plugin's name in the host.
pub const PLUGIN_NAME: &'static str = "AviUtl2 Alias Inserter";

/// What the plugin's threads share.
#[derive(Clone, Copy, Debug, PartialEq, Eq, Structural)]
pub struct AliasInserterPlugin {
    /// The worker is asked to stop.
    pub shutdown_flag: bool,
    /// The worker runs and has not been joined.
    pub worker_thread: bool,
    /// The pipe that the worker reads from, and on which it may be blocked.
    pub active_pipe: Option<isize>,
}

/// What the host shows about the plugin.
pub struct PluginTable {
    pub name: String,
    pub information: String,
}

/// The step of a shutdown that has to be carried out next.
#[derive(Clone, Copy, Debug, PartialEq, Eq, Structural)]
pub enum ShutdownPhase {
    /// Disconnect the pipe, which ends a read that the worker is blocked in. The worker must
    /// not get at the plugin meanwhile: it would go on to close the pipe.
    Disconnect { pipe: isize },
    /// Wait until the pipe can be connected to.
    WaitForPipe,
    /// Connect to the pipe, which ends a wait for a client that the worker is blocked in.
    OpenDummy,
    /// Close the connection again.
    CloseDummy { handle: isize },
    /// Wait for the worker to end.
    JoinWorker,
    /// Nothing is left to do.
    Done,
}

/// What came of a step of a shutdown.
#[derive(Clone, Copy, Debug, PartialEq, Eq, Structural)]
pub enum ShutdownEvent {
    /// The step has been carried out, whether it succeeded or not.
    Performed,
    /// The connection has been tried; the handle, if it was made.
    Opened(Option<isize>),
}

/// A plugin that has been made and does nothing yet.
pub open spec fn fresh_plugin() -> AliasInserterPlugin {
    AliasInserterPlugin { shutdown_flag: false, worker_thread: false, active_pipe: None }
}

/// The plugin with the worker started.
pub open spec fn registered(plugin: AliasInserterPlugin) -> AliasInserterPlugin {
    AliasInserterPlugin { worker_thread: true, ..plugin }
}

/// The plugin once its shutdown has begun: the flag is up, and the active pipe is taken out.
pub open spec fn shutting_down(plugin: AliasInserterPlugin) -> AliasInserterPlugin {
    AliasInserterPlugin { shutdown_flag: true, active_pipe: None, ..plugin }
}

/// The plugin without a worker to join.
pub open spec fn worker_taken(plugin: AliasInserterPlugin) -> AliasInserterPlugin {
    AliasInserterPlugin { worker_thread: false, ..plugin }
}

/// The first step of a shutdown: a worker that reads is set free first.
pub open spec fn first_shutdown_phase(plugin: AliasInserterPlugin) -> ShutdownPhase {
    match plugin.active_pipe {
        Some(pipe) => ShutdownPhase::Disconnect { pipe },
        None => ShutdownPhase::WaitForPipe,
    }
}

/// The step after the dummy connection: a worker that runs is joined.
pub open spec fn last_shutdown_phase(plugin: AliasInserterPlugin) -> ShutdownPhase {
    if plugin.worker_thread {
        ShutdownPhase::JoinWorker
    } else {
        ShutdownPhase::Done
    }
}

/// The event is one that the step can end in.
pub open spec fn shutdown_event_fits(phase: ShutdownPhase, event: ShutdownEvent) -> bool {
    match phase {
        ShutdownPhase::OpenDummy => event is Opened,
        ShutdownPhase::Done => false,
        _ => event is Performed,
    }
}

/// The next step of a shutdown and the plugin at that point. An event that does not fit the
/// step changes nothing.
pub open spec fn shutdown_step(
    phase: ShutdownPhase,
    event: ShutdownEvent,
    plugin: AliasInserterPlugin,
) -> (ShutdownPhase, AliasInserterPlugin) {
    if !shutdown_event_fits(phase, event) {
        (phase, plugin)
    } else {
        match phase {
            ShutdownPhase::Disconnect { pipe: _ } => (ShutdownPhase::WaitForPipe, plugin),
            ShutdownPhase::WaitForPipe => (ShutdownPhase::OpenDummy, plugin),
            ShutdownPhase::OpenDummy => match event->Opened_0 {
                Some(handle) => (ShutdownPhase::CloseDummy { handle }, plugin),
                None => (last_shutdown_phase(plugin), worker_taken(plugin)),
            },
            ShutdownPhase::CloseDummy { handle: _ } => (
                last_shutdown_phase(plugin),
                worker_taken(plugin),
            ),
            _ => (ShutdownPhase::Done, plugin),
        }
    }
}

/// The steps that are left before a shutdown is done, at most.
pub open spec fn shutdown_rank(phase: ShutdownPhase) -> nat {
    match phase {
        ShutdownPhase::Disconnect { pipe: _ } => 5,
        ShutdownPhase::WaitForPipe => 4,
        ShutdownPhase::OpenDummy => 3,
        ShutdownPhase::CloseDummy { handle: _ } => 2,
        ShutdownPhase::JoinWorker => 1,
        ShutdownPhase::Done => 0,
    }
}

/// What holds of the plugin at a step of its shutdown: the worker is asked to stop, no pipe is
/// active, and the worker has been taken out once the dummy connection is over.
pub open spec fn shutdown_ok(phase: ShutdownPhase, plugin: AliasInserterPlugin) -> bool {
    &&& plugin.shutdown_flag
    &&& plugin.active_pipe is None
    &&& phase is JoinWorker || phase is Done ==> !plugin.worker_thread
}

/// The shutdown after a run of events, from the plugin at which it began.
pub open spec fn shutdown_run(
    plugin: AliasInserterPlugin,
    events: Seq<ShutdownEvent>,
) -> (ShutdownPhase, AliasInserterPlugin)
    decreases events.len(),
{
    if events.len() == 0 {
        (first_shutdown_phase(plugin), shutting_down(plugin))
    } else {
        let before = shutdown_run(plugin, events.drop_last());
        shutdown_step(before.0, events.last(), before.1)
    }
}

/// At every point of a shutdown the worker is asked to stop and no pipe is active; when the
/// shutdown is done, no worker is left to join.
pub proof fn law_shutdown_invariant(plugin: AliasInserterPlugin, events: Seq<ShutdownEvent>)
    ensures
        shutdown_ok(shutdown_run(plugin, events).0, shutdown_run(plugin, events).1),
    decreases events.len(),
{
    if events.len() > 0 {
        law_shutdown_invariant(plugin, events.drop_last());
    }
}

/// Each step that is carried out brings the shutdown closer to its end, and only a finished
/// shutdown has no step left.
pub proof fn law_shutdown_ends(
    phase: ShutdownPhase,
    event: ShutdownEvent,
    plugin: AliasInserterPlugin,
)
    requires
        shutdown_event_fits(phase, event),
    ensures
        shutdown_rank(shutdown_step(phase, event, plugin).0) < shutdown_rank(phase),
        shutdown_rank(phase) == 0 <==> phase is Done,
{
}

/// The pipe that was active when the shutdown began is the first thing to be disconnected.
pub proof fn law_blocked_read_is_freed_first(plugin: AliasInserterPlugin, pipe: isize)
    requires
        plugin.active_pipe == Some(pipe),
    ensures
        shutdown_run(plugin, seq![]).0 == (ShutdownPhase::Disconnect { pipe }),
{
}

/// A running worker is joined, as the last step: the only way to the end of the shutdown of
/// a plugin with a worker goes through the join.
pub proof fn law_worker_is_joined(
    plugin: AliasInserterPlugin,
    events: Seq<ShutdownEvent>,
    event: ShutdownEvent,
)
    requires
        plugin.worker_thread,
        !(shutdown_run(plugin, events).0 is Done),
        shutdown_run(plugin, events.push(event)).0 is Done,
    ensures
        shutdown_run(plugin, events).0 is JoinWorker,
{
    assert(events.push(event).drop_last() =~= events);
    lemma_worker_waits(plugin, events);
}

/// The event makes the dummy connection.
pub open spec fn opens_dummy(phase: ShutdownPhase, event: ShutdownEvent) -> bool {
    phase is OpenDummy && (event matches ShutdownEvent::Opened(handle) && handle is Some)
}

/// The event closes the dummy connection.
pub open spec fn closes_dummy(phase: ShutdownPhase, event: ShutdownEvent) -> bool {
    phase is CloseDummy && event is Performed
}

/// The number of dummy connections made in a run.
pub open spec fn dummies_opened(
    plugin: AliasInserterPlugin,
    events: Seq<ShutdownEvent>,
) -> nat
    decreases events.len(),
{
    if events.len() == 0 {
        0
    } else {
        dummies_opened(plugin, events.drop_last()) + if opens_dummy(
            shutdown_run(plugin, events.drop_last()).0,
            events.last(),
        ) {
            1nat
        } else {
            0nat
        }
    }
}

/// The number of dummy connections closed in a run.
pub open spec fn dummies_closed(
    plugin: AliasInserterPlugin,
    events: Seq<ShutdownEvent>,
) -> nat
    decreases events.len(),
{
    if events.len() == 0 {
        0
    } else {
        dummies_closed(plugin, events.drop_last()) + if closes_dummy(
            shutdown_run(plugin, events.drop_last()).0,
            events.last(),
        ) {
            1nat
        } else {
            0nat
        }
    }
}

/// At most one dummy connection is made, and it is closed once: at any time one more has been
/// made than closed if it is about to be closed, and otherwise as many.
pub proof fn law_dummy_is_closed(plugin: AliasInserterPlugin, events: Seq<ShutdownEvent>)
    ensures
        dummies_opened(plugin, events) <= 1,
        dummies_opened(plugin, events) == dummies_closed(plugin, events) + if shutdown_run(
            plugin,
            events,
        ).0 is CloseDummy {
            1nat
        } else {
            0nat
        },
        shutdown_rank(shutdown_run(plugin, events).0) >= 3 ==> dummies_opened(plugin, events) == 0,
    decreases events.len(),
{
    if events.len() > 0 {
        law_dummy_is_closed(plugin, events.drop_last());
    }
}

/// Until the dummy connection is over the worker has not been taken out.
proof fn lemma_worker_waits(plugin: AliasInserterPlugin, events: Seq<ShutdownEvent>)
    requires
        plugin.worker_thread,
    ensures
        shutdown_run(plugin, events).0 is JoinWorker || shutdown_run(plugin, events).0 is Done
            || shutdown_run(plugin, events).1.worker_thread,
    decreases events.len(),
{
    if events.len() > 0 {
        lemma_worker_waits(plugin, events.drop_last());
    }
}

/// The order of a shutdown: the active pipe is disconnected, if there is one; the pipe is waited
/// for; the dummy connection is tried, and closed if it was made; the worker is joined, if there
/// is one; and that is the end. Only the worker's mark changes, and only when the worker is taken
/// out to be joined.
pub proof fn law_shutdown_order(pipe: isize, handle: isize, plugin: AliasInserterPlugin)
    ensures
        first_shutdown_phase(plugin) == match plugin.active_pipe {
            Some(active) => ShutdownPhase::Disconnect { pipe: active },
            None => ShutdownPhase::WaitForPipe,
        },
        shutdown_step(ShutdownPhase::Disconnect { pipe }, ShutdownEvent::Performed, plugin) == (
            ShutdownPhase::WaitForPipe,
            plugin,
        ),
        shutdown_step(ShutdownPhase::WaitForPipe, ShutdownEvent::Performed, plugin) == (
            ShutdownPhase::OpenDummy,
            plugin,
        ),
        shutdown_step(ShutdownPhase::OpenDummy, ShutdownEvent::Opened(Some(handle)), plugin) == (
            ShutdownPhase::CloseDummy { handle },
            plugin,
        ),
        ({
            let worker_joined = (
                if plugin.worker_thread {
                    ShutdownPhase::JoinWorker
                } else {
                    ShutdownPhase::Done
                },
                AliasInserterPlugin {
                    shutdown_flag: plugin.shutdown_flag,
                    worker_thread: false,
                    active_pipe: plugin.active_pipe,
                },
            );
            &&& shutdown_step(ShutdownPhase::OpenDummy, ShutdownEvent::Opened(None), plugin)
                == worker_joined
            &&& shutdown_step(
                ShutdownPhase::CloseDummy { handle },
                ShutdownEvent::Performed,
                plugin,
            ) == worker_joined
        }),
        shutdown_step(ShutdownPhase::JoinWorker, ShutdownEvent::Performed, plugin) == (
            ShutdownPhase::Done,
            plugin,
        ),
{
}

/// What came of something that a shutdown did not have to do changes nothing, and a shutdown that
/// is done stays so.
pub proof fn law_unfit_shutdown_event(
    phase: ShutdownPhase,
    event: ShutdownEvent,
    plugin: AliasInserterPlugin,
)
    requires
        phase is Done || (phase is OpenDummy <==> event is Performed),
    ensures
        shutdown_step(phase, event, plugin) == (phase, plugin),
{
}

/// At every point of a shutdown the flag is up and no pipe is active, and when it is done no
/// worker is left.
pub proof fn law_shutdown_leaves_nothing(plugin: AliasInserterPlugin, events: Seq<ShutdownEvent>)
    ensures
        shutdown_run(plugin, events).1.shutdown_flag,
        shutdown_run(plugin, events).1.active_pipe is None,
        shutdown_run(plugin, events).0 is Done ==> !shutdown_run(plugin, events).1.worker_thread,
{
    law_shutdown_invariant(plugin, events);
}

/// What is said of a worker that panicked.
pub open spec fn worker_panic_message() -> Seq<char> {
    "ワーカースレッドがパニックしました。強制終了します"@
}

/// What to report of a worker that has been joined: an error if it panicked.
pub fn worker_report(panicked: bool) -> (report: Option<String>)
    ensures
        optional_view(report) == if panicked {
            Some(worker_panic_message())
        } else {
            None
        },
        report is Some <==> panicked,
        report matches Some(said) ==> said@ == "ワーカースレッドがパニックしました。強制終了します"@,
{
    if panicked {
        Some("ワーカースレッドがパニックしました。強制終了します".to_string())
    } else {
        None
    }
}

impl AliasInserterPlugin {
    /// A plugin that does nothing yet.
    pub fn new() -> (plugin: AliasInserterPlugin)
        ensures
            plugin == fresh_plugin(),
            !plugin.shutdown_flag,
            !plugin.worker_thread,
            plugin.active_pipe is None,
    {
        AliasInserterPlugin { shutdown_flag: false, worker_thread: false, active_pipe: None }
    }

    /// What the host shows about version `version` of the plugin.
    pub fn plugin_info(version: &str) -> (table: PluginTable)
        ensures
            table.name@ == PLUGIN_NAME@,
            table.name@ == "AviUtl2 Alias Inserter"@,
            table.information@ == "AviUtl2 エイリアス自動挿入プラグイン v"@ + version@
                + " / Named Pipe 経由でエイリアスをタイムラインに挿入します"@,
    {
        PluginTable {
            name: PLUGIN_NAME.to_string(),
            information: join_three(
                "AviUtl2 エイリアス自動挿入プラグイン v",
                version,
                " / Named Pipe 経由でエイリアスをタイムラインに挿入します",
            ),
        }
    }

    /// Notes that the worker has been started.
    pub fn register(&mut self)
        ensures
            *final(self) == registered(*old(self)),
            final(self).worker_thread,
            final(self).shutdown_flag == old(self).shutdown_flag,
            final(self).active_pipe == old(self).active_pipe,
    {
        self.worker_thread = true;
    }

    /// Begins the shutdown: raises the flag, takes the active pipe out, and gives the first
    /// step to carry out.
    pub fn begin_shutdown(&mut self) -> (phase: ShutdownPhase)
        ensures
            *final(self) == shutting_down(*old(self)),
            phase == first_shutdown_phase(*old(self)),
            final(self).shutdown_flag,
            final(self).active_pipe is None,
            final(self).worker_thread == old(self).worker_thread,
            old(self).active_pipe matches Some(pipe) ==> phase == (ShutdownPhase::Disconnect {
                pipe,
            }),
            old(self).active_pipe is None ==> phase == ShutdownPhase::WaitForPipe,
    {
        self.shutdown_flag = true;
        let active = self.active_pipe;
        self.active_pipe = None;
        match active {
            Some(pipe) => ShutdownPhase::Disconnect { pipe },
            None => ShutdownPhase::WaitForPipe,
        }
    }

    /// Takes the worker out, and gives the step in which it is joined, if there is one.
    fn take_worker(&mut self) -> (phase: ShutdownPhase)
        ensures
            *final(self) == worker_taken(*old(self)),
            phase == last_shutdown_phase(*old(self)),
    {
        let running = self.worker_thread;
        self.worker_thread = false;
        if running {
            ShutdownPhase::JoinWorker
        } else {
            ShutdownPhase::Done
        }
    }

    /// The step of a shutdown that follows `phase` once `event` came of it.
    pub fn continue_shutdown(&mut self, phase: ShutdownPhase, event: ShutdownEvent) -> (next:
        ShutdownPhase)
        ensures
            (next, *final(self)) == shutdown_step(phase, event, *old(self)),
    {
        match (phase, event) {
            (ShutdownPhase::Disconnect { pipe: _ }, ShutdownEvent::Performed) => {
                ShutdownPhase::WaitForPipe
            },
            (ShutdownPhase::WaitForPipe, ShutdownEvent::Performed) => ShutdownPhase::OpenDummy,
            (ShutdownPhase::OpenDummy, ShutdownEvent::Opened(Some(handle))) => {
                ShutdownPhase::CloseDummy { handle }
            },
            (ShutdownPhase::OpenDummy, ShutdownEvent::Opened(None)) => self.take_worker(),
            (ShutdownPhase::CloseDummy { handle: _ }, ShutdownEvent::Performed) => {
                self.take_worker()
            },
            (ShutdownPhase::JoinWorker, ShutdownEvent::Performed) => ShutdownPhase::Done,
            _ => phase,
        }
    }
}

} // verus!
