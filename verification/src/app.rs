//! The application: its scenes, its windows, and the loop that serves them.

use vstd::prelude::*;
use crate::command::Command;
use crate::object::{ObjectManager, ObjectTypeView};
use crate::scene::{Scene, SceneView};
use crate::window::{scene_views, Window, WindowEvent};

verus! {

/// Where the loop stands. A tick goes through the phases in this order:
/// events are polled once, dispatched window by window, and then every
/// window in turn is updated, rendered and presented.
#[derive(Clone, Copy, Debug, PartialEq, Eq)]
pub enum Phase {
    /// A tick is about to begin.
    PollEvents,
    /// The events of this window are being handed out.
    DispatchEvents { window: usize },
    /// This window is about to be updated.
    Update { window: usize },
    /// This window is about to be rendered.
    Render { window: usize },
    /// This window is about to be presented.
    Present { window: usize },
}

/// What the outside reports back to the loop.
#[derive(Clone, Copy, Debug, PartialEq, Eq)]
pub enum Input {
    /// The actions were carried out, and there is nothing to report.
    Done,
    /// A tick is about to begin, this many nanoseconds after the tick before
    /// began.
    Tick { elapsed: u64 },
    /// The next event from the queue of the window that was asked.
    Event(WindowEvent),
    /// The queue of the window that was asked is empty; the flag is whether
    /// the windowing system has the window down for closing.
    QueueEmpty { should_close: bool },
}

/// What the loop asks the outside to do.
#[derive(Debug, PartialEq, Eq)]
#[allow(inconsistent_fields)]
pub enum Action<H> {
    /// Leave the loop: no window is open.
    Exit,
    /// Let the windowing system deliver the pending events of all windows.
    PollEvents,
    /// Report the next event in the queue of this window, or that the queue
    /// is empty.
    TakeEvent { window: usize },
    /// Carry out a command for this window.
    Perform { window: usize, command: Command },
    /// Call the callback for events of this scene with the event that was
    /// reported last, on behalf of this window.
    InvokeOnEvent { window: usize, scene: usize },
    /// Call the callback for updates of this scene on behalf of this window,
    /// with the time between the start of the tick before and the start of
    /// this tick, in nanoseconds.
    InvokeOnUpdate { window: usize, scene: usize, delta: u64 },
    /// Release this window: it is closed and no longer served.
    Destroy { closed: Window<H> },
}

/// A setting for the windows that are yet to be created.
#[derive(Clone, Copy, Debug, PartialEq, Eq)]
pub enum WindowHint {
    ContextVersionMajor(u32),
    ContextVersionMinor(u32),
    OpenGlCoreProfile,
    OpenGlForwardCompat(bool),
    OpenGlDebugContext(bool),
}

/// The application: all scenes, all windows, the registry of mesh types, and
/// the phase of the loop.
#[derive(Debug)]
pub struct App<H, E, U> {
    scenes: Vec<Scene<E, U>>,
    windows: Vec<Window<H>>,
    object_manager: ObjectManager,
    phase: Phase,
    delta: u64,
}

/// What an [`App`] holds, as plain sequences.
pub struct AppView<H, E, U> {
    pub scenes: Seq<SceneView<E, U>>,
    pub windows: Seq<Window<H>>,
    pub registry: Seq<ObjectTypeView>,
    pub phase: Phase,
    /// The nanoseconds between the start of the tick before and the start
    /// of the tick at hand.
    pub delta: u64,
}

impl<H, E, U> View for App<H, E, U> {
    type V = AppView<H, E, U>;

    closed spec fn view(&self) -> AppView<H, E, U> {
        AppView {
            scenes: scene_views(self.scenes@),
            windows: self.windows@,
            registry: self.object_manager@,
            phase: self.phase,
            delta: self.delta,
        }
    }
}

/// One action for each command, on behalf of `window`.
pub open spec fn perform<H>(window: usize, commands: Seq<Command>) -> Seq<Action<H>> {
    Seq::new(commands.len(), |k: int| Action::Perform { window, command: commands[k] })
}

/// One action that releases each window of the list.
pub open spec fn destroy<H>(windows: Seq<Window<H>>) -> Seq<Action<H>> {
    Seq::new(windows.len(), |k: int| Action::Destroy { closed: windows[k] })
}

/// The action that calls the callback for events, if one is due.
pub open spec fn invoke_on_event<H>(window: usize, target: Option<usize>) -> Seq<Action<H>> {
    match target {
        Some(scene) => seq![Action::InvokeOnEvent { window, scene }],
        None => Seq::empty(),
    }
}

/// The action that calls the callback for updates, if one is due.
pub open spec fn invoke_on_update<H>(window: usize, target: Option<usize>, delta: u64) -> Seq<
    Action<H>,
> {
    match target {
        Some(scene) => seq![Action::InvokeOnUpdate { window, scene, delta }],
        None => Seq::empty(),
    }
}

/// Whether a window is down for closing.
pub open spec fn closing<H>() -> spec_fn(Window<H>) -> bool {
    |w: Window<H>| w.should_close
}

/// Whether a window stays open.
pub open spec fn staying<H>() -> spec_fn(Window<H>) -> bool {
    |w: Window<H>| !w.should_close
}

impl<H, E, U> AppView<H, E, U> {
    /// Whether the windows can be counted by a machine word, as those of
    /// every [`App`] can.
    pub open spec fn countable(self) -> bool {
        self.windows.len() <= usize::MAX
    }

    /// Whether the loop is to end: there is no window, or every window is
    /// down for closing.
    pub open spec fn should_close(self) -> bool {
        forall|i: int| 0 <= i < self.windows.len() ==> (#[trigger] self.windows[i]).should_close
    }

    /// The same application in another phase.
    pub open spec fn at(self, phase: Phase) -> Self {
        AppView { phase, ..self }
    }

    /// The start of a tick: leave the loop if it is to end, else take the
    /// time since the tick before from the input, poll, and turn to the
    /// events of the first window. An input that tells no time leaves the
    /// time as it was.
    pub open spec fn poll(self, input: Input) -> (Self, Seq<Action<H>>) {
        if self.should_close() {
            (self, seq![Action::Exit])
        } else {
            (
                AppView {
                    phase: Phase::DispatchEvents { window: 0 },
                    delta: match input {
                        Input::Tick { elapsed } => elapsed,
                        _ => self.delta,
                    },
                    ..self
                },
                seq![Action::PollEvents, Action::TakeEvent { window: 0 }],
            )
        }
    }

    /// The end of the dispatch: every window that is down for closing leaves
    /// the list and is released; the others keep their order. The loop
    /// turns to the update of the first window that is left.
    pub open spec fn prune(self) -> (Self, Seq<Action<H>>) {
        let kept = self.windows.filter(staying());
        (
            AppView {
                windows: kept,
                phase: if kept.len() > 0 {
                    Phase::Update { window: 0 }
                } else {
                    Phase::PollEvents
                },
                ..self
            },
            destroy(self.windows.filter(closing())),
        )
    }

    /// The end of the events of window `window`: on to the events of the
    /// next window, or to the end of the dispatch after the last.
    pub open spec fn next_queue(self, window: usize) -> (Self, Seq<Action<H>>) {
        if window + 1 < self.windows.len() {
            (
                self.at(Phase::DispatchEvents { window: (window + 1) as usize }),
                seq![Action::TakeEvent { window: (window + 1) as usize }],
            )
        } else {
            self.prune()
        }
    }

    /// One step of the dispatch for window `window`. An event is handled as
    /// the window says, handed to the callback of its scene if there is one,
    /// and the next event is asked for. An empty queue records whether the
    /// window is down for closing and ends the events of this window. Any
    /// other input ends them too and records nothing.
    pub open spec fn dispatch(self, window: usize, input: Input) -> (Self, Seq<Action<H>>) {
        if window >= self.windows.len() {
            self.prune()
        } else {
            let w = self.windows[window as int];
            match input {
                Input::Event(event) => (
                    AppView {
                        windows: self.windows.update(
                            window as int,
                            w.after_event(self.scenes.len(), event),
                        ),
                        ..self
                    },
                    perform(window, w.dispatch_commands(self.scenes.len(), event))
                        + invoke_on_event(window, w.event_target(self.scenes)) + seq![
                        Action::TakeEvent { window },
                    ],
                ),
                Input::QueueEmpty { should_close } => AppView {
                    windows: self.windows.update(window as int, w.with_should_close(should_close)),
                    ..self
                }.next_queue(window),
                _ => self.next_queue(window),
            }
        }
    }

    /// The update of window `window`: the callback for updates of its scene
    /// is called, if there is one. The render of the same window follows.
    pub open spec fn update(self, window: usize) -> (Self, Seq<Action<H>>) {
        if window >= self.windows.len() {
            (self.at(Phase::PollEvents), Seq::empty())
        } else {
            (
                self.at(Phase::Render { window }),
                invoke_on_update(
                    window,
                    self.windows[window as int].update_target(self.scenes),
                    self.delta,
                ),
            )
        }
    }

    /// The render of window `window`: the commands of its frame. The
    /// present of the same window follows.
    pub open spec fn render(self, window: usize) -> (Self, Seq<Action<H>>) {
        if window >= self.windows.len() {
            (self.at(Phase::PollEvents), Seq::empty())
        } else {
            let w = self.windows[window as int];
            (
                AppView { scenes: w.after_frame(self.scenes), phase: Phase::Present { window }, ..self },
                perform(window, w.frame_commands(self.scenes, self.registry)),
            )
        }
    }

    /// The present of window `window`. The update of the next window
    /// follows, or the next tick after the last window.
    pub open spec fn present(self, window: usize) -> (Self, Seq<Action<H>>) {
        if window >= self.windows.len() {
            (self.at(Phase::PollEvents), Seq::empty())
        } else {
            (
                self.at(
                    if window + 1 < self.windows.len() {
                        Phase::Update { window: (window + 1) as usize }
                    } else {
                        Phase::PollEvents
                    },
                ),
                perform(window, self.windows[window as int].present_commands(self.scenes.len())),
            )
        }
    }

    /// One step of the loop: what the phase at hand says. The start of a
    /// tick and the dispatch look at the input; the other phases do not.
    pub open spec fn step(self, input: Input) -> (Self, Seq<Action<H>>) {
        match self.phase {
            Phase::PollEvents => self.poll(input),
            Phase::DispatchEvents { window } => self.dispatch(window, input),
            Phase::Update { window } => self.update(window),
            Phase::Render { window } => self.render(window),
            Phase::Present { window } => self.present(window),
        }
    }
}

/// Wraps commands into actions on behalf of `window`, one for one.
fn wrap<H>(window: usize, commands: Vec<Command>) -> (actions: Vec<Action<H>>)
    ensures
        actions@ == perform::<H>(window, commands@),
{
    let mut actions: Vec<Action<H>> = Vec::new();
    let mut k: usize = 0;
    while k < commands.len()
        invariant
            k <= commands@.len(),
            actions@ == perform::<H>(window, commands@.take(k as int)),
        decreases commands@.len() - k,
    {
        actions.push(Action::Perform { window, command: commands[k] });
        k += 1;
        assert(actions@ =~= perform::<H>(window, commands@.take(k as int)));
    }
    assert(commands@.take(k as int) =~= commands@);
    actions
}

impl<H, E, U> App<H, E, U> {
    /// The settings for the windows to come: a context of version 4.6 with
    /// the core profile; forward compatible where the platform asks for it,
    /// and with a debug context where one is wanted.
    pub open spec fn hints(forward_compat: bool, debug: bool) -> Seq<WindowHint> {
        seq![
            WindowHint::ContextVersionMajor(4),
            WindowHint::ContextVersionMinor(6),
            WindowHint::OpenGlCoreProfile,
        ] + (if forward_compat {
            seq![WindowHint::OpenGlForwardCompat(true)]
        } else {
            Seq::empty()
        }) + (if debug {
            seq![WindowHint::OpenGlDebugContext(true)]
        } else {
            Seq::empty()
        })
    }

    /// The settings to hand to the windowing system before the first window
    /// is created, as [`Self::hints`] says.
    pub fn window_hints(forward_compat: bool, debug: bool) -> (hints: Vec<WindowHint>)
        ensures
            hints@ == Self::hints(forward_compat, debug),
    {
        let mut hints: Vec<WindowHint> = Vec::new();
        hints.push(WindowHint::ContextVersionMajor(4));
        hints.push(WindowHint::ContextVersionMinor(6));
        hints.push(WindowHint::OpenGlCoreProfile);
        if forward_compat {
            hints.push(WindowHint::OpenGlForwardCompat(true));
        }
        if debug {
            hints.push(WindowHint::OpenGlDebugContext(true));
        }
        assert(hints@ =~= Self::hints(forward_compat, debug));
        hints
    }

    /// An application over the given scenes and mesh types, without a
    /// window, at the start of a tick.
    pub fn new(scenes: Vec<Scene<E, U>>, object_manager: ObjectManager) -> (app: Self)
        ensures
            app@ == (AppView::<H, E, U> {
                scenes: scene_views(scenes@),
                windows: Seq::empty(),
                registry: object_manager@,
                phase: Phase::PollEvents,
                delta: 0,
            }),
    {
        App { scenes, windows: Vec::new(), object_manager, phase: Phase::PollEvents, delta: 0 }
    }

    /// Adds a scene and returns its index: the number of scenes that were
    /// there before.
    pub fn register_scene(&mut self, scene: Scene<E, U>) -> (id: usize)
        ensures
            id == old(self)@.scenes.len(),
            final(self)@ == (AppView { scenes: old(self)@.scenes.push(scene@), ..old(self)@ }),
    {
        let id = self.scenes.len();
        self.scenes.push(scene);
        assert(scene_views(self.scenes@) =~= scene_views(old(self).scenes@).push(scene@));
        id
    }

    /// Adds a window at the end of the list, and returns the actions that
    /// make its context current and switch the delivery of its events on.
    pub fn create_window(&mut self, window: Window<H>) -> (actions: Vec<Action<H>>)
        ensures
            final(self)@ == (AppView { windows: old(self)@.windows.push(window), ..old(self)@ }),
            actions@ == perform::<H>(
                old(self)@.windows.len() as usize,
                seq![Command::MakeCurrent, Command::SetAllPolling { poll: true }],
            ),
    {
        let index = self.windows.len();
        let mut commands: Vec<Command> = Vec::new();
        commands.push(window.make_current());
        commands.push(window.set_all_polling(true));
        self.windows.push(window);
        wrap(index, commands)
    }

    /// Whether the loop is to end: there is no window, or every window is
    /// down for closing.
    pub fn should_close(&self) -> (end: bool)
        ensures
            end == self@.should_close(),
    {
        let mut i: usize = 0;
        while i < self.windows.len()
            invariant
                i <= self.windows@.len(),
                forall|k: int| 0 <= k < i ==> (#[trigger] self.windows@[k]).should_close,
            decreases self.windows@.len() - i,
        {
            if !self.windows[i].should_close() {
                assert(!self@.windows[i as int].should_close);
                return false;
            }
            i += 1;
        }
        true
    }

    /// Drops the windows that are down for closing from the list and turns
    /// to the update of the first window that is left.
    fn prune(&mut self) -> (actions: Vec<Action<H>>)
        ensures
            final(self)@ == old(self)@.prune().0,
            actions@ == old(self)@.prune().1,
    {
        let mut all: Vec<Window<H>> = Vec::new();
        std::mem::swap(&mut all, &mut self.windows);
        let ghost before = all@;
        let mut kept: Vec<Window<H>> = Vec::new();
        let mut actions: Vec<Action<H>> = Vec::new();
        let mut done: usize = 0;
        let total = all.len();
        while all.len() > 0
            invariant
                done + all@.len() == total,
                total == before.len(),
                all@ == before.skip(done as int),
                kept@ == before.take(done as int).filter(staying()),
                actions@ == destroy(before.take(done as int).filter(closing())),
            decreases all@.len(),
        {
            let window = all.remove(0);
            proof {
                let next = before.take(done + 1);
                assert(window == before[done as int]);
                assert(next.drop_last() =~= before.take(done as int));
                assert(next.last() == window);
                reveal(Seq::filter);
                assert(all@ =~= before.skip(done + 1));
            }
            if window.should_close() {
                actions.push(Action::Destroy { closed: window });
                assert(actions@ =~= destroy(before.take(done + 1).filter(closing())));
            } else {
                kept.push(window);
            }
            done += 1;
        }
        assert(before.take(done as int) =~= before);
        self.phase = if kept.len() > 0 {
            Phase::Update { window: 0 }
        } else {
            Phase::PollEvents
        };
        self.windows = kept;
        actions
    }

    /// Ends the events of window `window`.
    fn next_queue(&mut self, window: usize) -> (actions: Vec<Action<H>>)
        requires
            window < old(self)@.windows.len(),
        ensures
            final(self)@ == old(self)@.next_queue(window).0,
            actions@ == old(self)@.next_queue(window).1,
    {
        let count = self.windows.len();
        if window + 1 < count {
            self.phase = Phase::DispatchEvents { window: window + 1 };
            let mut actions: Vec<Action<H>> = Vec::new();
            actions.push(Action::TakeEvent { window: window + 1 });
            actions
        } else {
            self.prune()
        }
    }

    /// Runs the loop up to the next point where the outside has to act:
    /// takes what the outside reports about the actions of the step before,
    /// and returns the actions that are due now, in order. The loop is over
    /// when the actions hold [`Action::Exit`].
    pub fn run(&mut self, input: Input) -> (actions: Vec<Action<H>>)
        ensures
            final(self)@ == old(self)@.step(input).0,
            actions@ == old(self)@.step(input).1,
    {
        match self.phase {
            Phase::PollEvents => {
                let mut actions: Vec<Action<H>> = Vec::new();
                if self.should_close() {
                    actions.push(Action::Exit);
                } else {
                    actions.push(Action::PollEvents);
                    actions.push(Action::TakeEvent { window: 0 });
                    self.phase = Phase::DispatchEvents { window: 0 };
                    match input {
                        Input::Tick { elapsed } => {
                            self.delta = elapsed;
                        },
                        _ => {},
                    }
                }
                actions
            },
            Phase::DispatchEvents { window } => {
                if window >= self.windows.len() {
                    return self.prune();
                }
                match input {
                    Input::Event(event) => {
                        let (commands, forward) = self.windows[window].poll_events(
                            &self.scenes,
                            event,
                        );
                        let mut actions = wrap(window, commands);
                        match forward {
                            Some(scene) => {
                                actions.push(Action::InvokeOnEvent { window, scene });
                            },
                            None => {},
                        }
                        actions.push(Action::TakeEvent { window });
                        assert(self@.windows =~= old(self)@.step(input).0.windows);
                        assert(actions@ =~= old(self)@.step(input).1);
                        actions
                    },
                    Input::QueueEmpty { should_close } => {
                        self.windows[window].should_close = should_close;
                        assert(self@.windows =~= old(self)@.windows.update(
                            window as int,
                            old(self)@.windows[window as int].with_should_close(should_close),
                        ));
                        self.next_queue(window)
                    },
                    _ => self.next_queue(window),
                }
            },
            Phase::Update { window } => {
                let mut actions: Vec<Action<H>> = Vec::new();
                if window >= self.windows.len() {
                    self.phase = Phase::PollEvents;
                    return actions;
                }
                match self.windows[window].update(&self.scenes) {
                    Some(scene) => {
                        actions.push(Action::InvokeOnUpdate { window, scene, delta: self.delta });
                    },
                    None => {},
                }
                self.phase = Phase::Render { window };
                assert(actions@ =~= old(self)@.step(input).1);
                actions
            },
            Phase::Render { window } => {
                if window >= self.windows.len() {
                    self.phase = Phase::PollEvents;
                    return Vec::new();
                }
                let commands = self.windows[window].render(&mut self.scenes, &self.object_manager);
                self.phase = Phase::Present { window };
                wrap(window, commands)
            },
            Phase::Present { window } => {
                if window >= self.windows.len() {
                    self.phase = Phase::PollEvents;
                    return Vec::new();
                }
                let commands = self.windows[window].present(self.scenes.len());
                let count = self.windows.len();
                self.phase = if window + 1 < count {
                    Phase::Update { window: window + 1 }
                } else {
                    Phase::PollEvents
                };
                wrap(window, commands)
            },
        }
    }

    /// The windows of an application can be counted by a machine word.
    pub proof fn lemma_countable(&self)
        ensures
            self@.countable(),
    {
        vstd::std_specs::vec::axiom_spec_len(&self.windows);
    }

    /// The nanoseconds between the start of the tick before and the start
    /// of the tick at hand.
    pub fn delta(&self) -> (delta: u64)
        ensures
            delta == self@.delta,
    {
        self.delta
    }

    /// The phase that the loop is in.
    pub fn phase(&self) -> (phase: Phase)
        ensures
            phase == self@.phase,
    {
        self.phase
    }

    /// The number of scenes.
    pub fn scene_count(&self) -> (n: usize)
        ensures
            n == self@.scenes.len(),
    {
        self.scenes.len()
    }

    /// The number of windows that are open.
    pub fn window_count(&self) -> (n: usize)
        ensures
            n == self@.windows.len(),
    {
        self.windows.len()
    }

    /// The scene at `index`, if there is one.
    pub fn scene(&self, index: usize) -> (scene: Option<&Scene<E, U>>)
        ensures
            index < self@.scenes.len() ==> scene is Some && scene->Some_0@
                == self@.scenes[index as int],
            index >= self@.scenes.len() ==> scene is None,
    {
        if index < self.scenes.len() {
            Some(&self.scenes[index])
        } else {
            None
        }
    }

    /// The window at `index`, if there is one.
    pub fn window(&self, index: usize) -> (window: Option<&Window<H>>)
        ensures
            index < self@.windows.len() ==> window == Some(&self@.windows[index as int]),
            index >= self@.windows.len() ==> window is None,
    {
        if index < self.windows.len() {
            Some(&self.windows[index])
        } else {
            None
        }
    }

    /// The window at `index`, to change it. Nothing else in the application
    /// changes.
    pub fn window_mut(&mut self, index: usize) -> (window: &mut Window<H>)
        requires
            index < old(self)@.windows.len(),
        ensures
            *window == old(self)@.windows[index as int],
            final(self)@ == (AppView {
                windows: old(self)@.windows.update(index as int, *final(window)),
                ..old(self)@
            }),
    {
        &mut self.windows[index]
    }

    /// The scene at `index`, to change it. Nothing else in the application
    /// changes.
    pub fn scene_mut(&mut self, index: usize) -> (scene: &mut Scene<E, U>)
        requires
            index < old(self)@.scenes.len(),
        ensures
            scene@ == old(self)@.scenes[index as int],
            final(self)@ == (AppView {
                scenes: old(self)@.scenes.update(index as int, final(scene)@),
                ..old(self)@
            }),
    {
        let found = &mut self.scenes[index];
        proof {
            assert(scene_views(old(self).scenes@.update(index as int, *final(found)))
                =~= scene_views(old(self).scenes@).update(index as int, final(found)@));
        }
        found
    }

    /// The window at `window` and the scene at `scene`, both to change, as a
    /// callback needs them. Nothing else in the application changes.
    pub fn parts(&mut self, window: usize, scene: usize) -> (parts: (
        &mut Window<H>,
        &mut Scene<E, U>,
    ))
        requires
            window < old(self)@.windows.len(),
            scene < old(self)@.scenes.len(),
        ensures
            *parts.0 == old(self)@.windows[window as int],
            (*parts.1)@ == old(self)@.scenes[scene as int],
            final(self)@ == (AppView {
                windows: old(self)@.windows.update(window as int, *final(parts.0)),
                scenes: old(self)@.scenes.update(scene as int, (*final(parts.1))@),
                ..old(self)@
            }),
    {
        let found = (&mut self.windows[window], &mut self.scenes[scene]);
        proof {
            assert(scene_views(old(self).scenes@.update(scene as int, *final(found.1)))
                =~= scene_views(old(self).scenes@).update(scene as int, (*final(found.1))@));
        }
        found
    }

    /// The registry of mesh types, to register more. Nothing else in the
    /// application changes.
    pub fn object_manager_mut(&mut self) -> (manager: &mut ObjectManager)
        ensures
            manager@ == old(self)@.registry,
            final(self)@ == (AppView { registry: final(manager)@, ..old(self)@ }),
    {
        &mut self.object_manager
    }

    /// The registry of mesh types.
    pub fn object_manager(&self) -> (manager: &ObjectManager)
        ensures
            manager@ == self@.registry,
    {
        &self.object_manager
    }
}

} // verus!
