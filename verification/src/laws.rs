//! What holds of the loop over whole ticks.

use vstd::prelude::*;
use crate::app::{closing, destroy, perform, staying, Action, AppView, Input, Phase};
use crate::command::Command;
use crate::object::{Object, ObjectTypeView};
use crate::scene::{instance_commands, render_commands, SceneView};
use crate::words::Vec4;
use crate::window::Window;

verus! {

impl<H, E, U> AppView<H, E, U> {
    /// The application after the inputs, taken one step each, and all
    /// actions of those steps in order.
    pub open spec fn run(self, inputs: Seq<Input>) -> (Self, Seq<Action<H>>)
        decreases inputs.len(),
    {
        if inputs.len() == 0 {
            (self, Seq::empty())
        } else {
            let (then, actions) = self.step(inputs[0]);
            let (end, rest) = then.run(inputs.drop_first());
            (end, actions + rest)
        }
    }

    /// Whether no window is down for closing.
    pub open spec fn all_staying(self) -> bool {
        forall|i: int| 0 <= i < self.windows.len() ==> !(#[trigger] self.windows[i]).should_close
    }
}

/// How often the actions call the callback for updates of `scene`.
pub open spec fn update_calls<H>(actions: Seq<Action<H>>, scene: usize) -> nat
    decreases actions.len(),
{
    if actions.len() == 0 {
        0
    } else {
        update_calls(actions.drop_last(), scene) + (match actions.last() {
            Action::InvokeOnUpdate { scene: called, .. } => if called == scene {
                1nat
            } else {
                0nat
            },
            _ => 0nat,
        })
    }
}

/// Whether every call of a callback for updates among the actions hands
/// over the time `delta`.
pub open spec fn timed<H>(actions: Seq<Action<H>>, delta: u64) -> bool {
    forall|k: int|
        0 <= k < actions.len() ==> ((#[trigger] actions[k]) matches Action::InvokeOnUpdate {
            delta: handed,
            ..
        } ==> handed == delta)
}

/// Whether the actions are commands for the driver and calls of callbacks
/// for updates, and nothing else: no poll, no event, no release.
pub open spec fn frames_only<H>(actions: Seq<Action<H>>) -> bool {
    forall|k: int|
        0 <= k < actions.len() ==> (#[trigger] actions[k]) is Perform || actions[k]
            is InvokeOnUpdate
}

/// How many of the windows show `scene`.
pub open spec fn showing<H>(windows: Seq<Window<H>>, scene: usize) -> nat
    decreases windows.len(),
{
    if windows.len() == 0 {
        0
    } else {
        showing(windows.drop_first(), scene) + (if windows.first().opts.scene == scene {
            1nat
        } else {
            0nat
        })
    }
}

/// Whether `scene` is one of the scenes and has a callback for updates.
pub open spec fn watched<E, U>(scenes: Seq<SceneView<E, U>>, scene: usize) -> bool {
    scene < scenes.len() && scenes[scene as int].listener.on_update is Some
}

/// A loop that starts a tick without a window leaves at once and asks for
/// nothing else: no poll, no update, no frame.
pub proof fn lemma_no_window_exits<H, E, U>(app: AppView<H, E, U>, input: Input)
    requires
        app.phase == Phase::PollEvents,
        app.windows.len() == 0,
    ensures
        app.step(input) == (app, seq![Action::<H>::Exit]),
{
}

/// After the dispatch has ended, no window in the list is down for closing,
/// every window that was not is still there, and those are in the order
/// that they had.
pub proof fn lemma_prune_keeps_the_open<H, E, U>(app: AppView<H, E, U>)
    ensures
        app.prune().0.all_staying(),
        app.prune().0.windows == app.windows.filter(staying()),
        app.prune().1 == destroy(app.windows.filter(closing())),
        app.all_staying() ==> app.prune().0.windows == app.windows && app.prune().1
            == Seq::<Action<H>>::empty(),
{
    let kept = app.windows.filter(staying::<H>());
    assert forall|i: int| 0 <= i < kept.len() implies !(#[trigger] kept[i]).should_close by {
        app.windows.lemma_filter_pred(staying::<H>(), i);
    }
    if app.all_staying() {
        lemma_filter_all(app.windows);
        assert(app.prune().1 =~= Seq::<Action<H>>::empty());
    }
}

/// Filtering a list in which no window is down for closing keeps the list,
/// and the list of those that are is empty.
pub proof fn lemma_filter_all<H>(windows: Seq<Window<H>>)
    requires
        forall|i: int| 0 <= i < windows.len() ==> !(#[trigger] windows[i]).should_close,
    ensures
        windows.filter(staying()) == windows,
        windows.filter(closing()) == Seq::<Window<H>>::empty(),
    decreases windows.len(),
{
    reveal(Seq::filter);
    if windows.len() > 0 {
        lemma_filter_all(windows.drop_last());
        assert(windows.drop_last().push(windows.last()) =~= windows);
    }
}

/// Running over a list of inputs is running over its head and then over
/// its tail.
pub proof fn lemma_run_split<H, E, U>(app: AppView<H, E, U>, inputs: Seq<Input>, k: int)
    requires
        0 <= k <= inputs.len(),
    ensures
        app.run(inputs).0 == app.run(inputs.take(k)).0.run(inputs.skip(k)).0,
        app.run(inputs).1 == app.run(inputs.take(k)).1 + app.run(inputs.take(k)).0.run(
            inputs.skip(k),
        ).1,
    decreases k,
{
    if k == 0 {
        assert(inputs.skip(0) =~= inputs);
        assert(app.run(inputs.take(0)).1 + app.run(inputs).1 =~= app.run(inputs).1);
    } else {
        let then = app.step(inputs[0]).0;
        let head = inputs.take(k);
        assert(head.drop_first() =~= inputs.drop_first().take(k - 1));
        assert(inputs.drop_first().skip(k - 1) =~= inputs.skip(k));
        lemma_run_split(then, inputs.drop_first(), k - 1);
        assert(head[0] == inputs[0]);
        let first = app.step(inputs[0]).1;
        let middle = then.run(head.drop_first()).1;
        let last = then.run(head.drop_first()).0.run(inputs.skip(k)).1;
        assert(first + (middle + last) =~= (first + middle) + last);
    }
}

/// The calls in two lists of actions add up.
pub proof fn lemma_update_calls_add<H>(a: Seq<Action<H>>, b: Seq<Action<H>>, scene: usize)
    ensures
        update_calls(a + b, scene) == update_calls(a, scene) + update_calls(b, scene),
    decreases b.len(),
{
    if b.len() == 0 {
        assert(a + b =~= a);
    } else {
        assert((a + b).drop_last() =~= a + b.drop_last());
        assert((a + b).last() == b.last());
        lemma_update_calls_add(a, b.drop_last(), scene);
    }
}

/// Commands for the driver call no callback.
pub proof fn lemma_update_calls_perform<H>(
    window: usize,
    commands: Seq<Command>,
    scene: usize,
)
    ensures
        update_calls(perform::<H>(window, commands), scene) == 0,
    decreases commands.len(),
{
    if commands.len() > 0 {
        assert(perform::<H>(window, commands).drop_last() =~= perform::<H>(
            window,
            commands.drop_last(),
        ));
        lemma_update_calls_perform::<H>(window, commands.drop_last(), scene);
    }
}

/// From the update of a window to the end of the tick, with nothing
/// changed from outside in between: every window from that one on is
/// updated, rendered and presented, in this order and one window after the
/// other; the list of windows, the registry and the callbacks stay as they
/// are; the callback for updates of a scene is called once for every one of
/// those windows that shows the scene; and every such call hands over the
/// time of the tick.
pub proof fn lemma_frames<H, E, U>(app: AppView<H, E, U>, inputs: Seq<Input>, scene: usize)
    requires
        app.countable(),
        app.phase is Update,
        app.phase->Update_window < app.windows.len(),
        inputs.len() == 3 * (app.windows.len() - app.phase->Update_window),
    ensures
        ({
            let (end, actions) = app.run(inputs);
            &&& end.phase == Phase::PollEvents
            &&& end.windows == app.windows
            &&& end.registry == app.registry
            &&& end.delta == app.delta
            &&& timed(actions, app.delta)
            &&& frames_only(actions)
            &&& end.scenes.len() == app.scenes.len()
            &&& forall|s: int|
                0 <= s < app.scenes.len() ==> (#[trigger] end.scenes[s]).listener
                    == app.scenes[s].listener
            &&& update_calls(actions, scene) == (if watched(app.scenes, scene) {
                showing(app.windows.skip(app.phase->Update_window as int), scene)
            } else {
                0
            })
        }),
    decreases app.windows.len() - app.phase->Update_window,
{
    let i = app.phase->Update_window;
    let w = app.windows[i as int];
    let (a1, x1) = app.step(inputs[0]);
    let in1 = inputs.drop_first();
    let (a2, x2) = a1.step(in1[0]);
    let in2 = in1.drop_first();
    let (a3, x3) = a2.step(in2[0]);
    let in3 = in2.drop_first();
    assert(a1 == app.at(Phase::Render { window: i }));
    assert(a2.phase == (Phase::Present { window: i }) && a2.windows == app.windows);
    assert(a3.windows == app.windows && a3.scenes == a2.scenes);
    let (end, rest) = a3.run(in3);
    assert(a2.run(in2) == (end, x3 + rest));
    assert(a1.run(in1) == (end, x2 + (x3 + rest)));
    assert(app.run(inputs) == (end, x1 + (x2 + (x3 + rest))));
    let tail = app.windows.skip(i as int);
    assert(tail.first() == w);
    assert(tail.drop_first() =~= app.windows.skip(i + 1));
    assert(watched(a3.scenes, scene) == watched(app.scenes, scene));
    assert(in3.len() == inputs.len() - 3);
    if i + 1 < app.windows.len() {
        assert(a3.phase == (Phase::Update { window: (i + 1) as usize }));
        assert(a3.phase->Update_window == i + 1);
        lemma_frames(a3, in3, scene);
    } else {
        assert(app.windows.skip(i + 1).len() == 0);
    }
    assert(timed(x1 + (x2 + (x3 + rest)), app.delta)) by {
        assert(timed(rest, app.delta));
    }
    assert(frames_only(x1 + (x2 + (x3 + rest)))) by {
        assert(frames_only(rest));
    }
    lemma_update_calls_perform::<H>(i, w.frame_commands(app.scenes, app.registry), scene);
    lemma_update_calls_perform::<H>(i, w.present_commands(a2.scenes.len()), scene);
    assert(x2 == perform::<H>(i, w.frame_commands(app.scenes, app.registry)));
    assert(x3 == perform::<H>(i, w.present_commands(a2.scenes.len())));
    assert(showing(tail, scene) == showing(app.windows.skip(i + 1), scene) + (if w.opts.scene
        == scene {
        1nat
    } else {
        0nat
    }));
    assert(update_calls(rest, scene) == (if watched(app.scenes, scene) {
        showing(app.windows.skip(i + 1), scene)
    } else {
        0
    }));
    lemma_update_calls_add(x3, rest, scene);
    lemma_update_calls_add(x2, x3 + rest, scene);
    lemma_update_calls_add(x1, x2 + (x3 + rest), scene);
    assert(update_calls(x1, scene) == (if watched(app.scenes, scene) && w.opts.scene == scene {
        1nat
    } else {
        0nat
    })) by {
        reveal_with_fuel(update_calls, 2);
        if x1.len() > 0 {
            assert(x1.drop_last().len() == 0);
        }
    }
}

/// A dispatch in which every queue is empty and no window is down for
/// closing, from the queue of one window to the last: it calls no callback,
/// keeps every window, and leaves the loop at the update of the first
/// window.
pub proof fn lemma_quiet_dispatch<H, E, U>(app: AppView<H, E, U>, inputs: Seq<Input>, scene: usize)
    requires
        app.countable(),
        app.all_staying(),
        app.phase is DispatchEvents,
        app.phase->DispatchEvents_window < app.windows.len(),
        inputs.len() == app.windows.len() - app.phase->DispatchEvents_window,
        forall|k: int|
            0 <= k < inputs.len() ==> inputs[k] == (Input::QueueEmpty { should_close: false }),
    ensures
        app.run(inputs).0 == app.at(Phase::Update { window: 0 }),
        update_calls(app.run(inputs).1, scene) == 0,
    decreases app.windows.len() - app.phase->DispatchEvents_window,
{
    let i = app.phase->DispatchEvents_window;
    let w = app.windows[i as int];
    let (then, first) = app.step(inputs[0]);
    let rest = inputs.drop_first();
    let recorded = AppView {
        windows: app.windows.update(i as int, w.with_should_close(false)),
        ..app
    };
    assert(w.with_should_close(false) == w);
    assert(recorded.windows =~= app.windows);
    assert(recorded == app);
    assert(app.step(inputs[0]) == app.next_queue(i));
    reveal_with_fuel(update_calls, 2);
    if i + 1 < app.windows.len() {
        assert(then == app.at(Phase::DispatchEvents { window: (i + 1) as usize }));
        assert(first == seq![Action::<H>::TakeEvent { window: (i + 1) as usize }]);
        assert(first.drop_last().len() == 0);
        lemma_quiet_dispatch(then, rest, scene);
        lemma_update_calls_add(first, then.run(rest).1, scene);
    } else {
        lemma_prune_keeps_the_open(app);
        assert(then == app.at(Phase::Update { window: 0 }));
        assert(first.len() == 0);
        assert(rest.len() == 0);
        assert(then.run(rest) == (then, Seq::<Action<H>>::empty()));
        assert(app.run(inputs).1 =~= first);
    }
}

/// A dispatch in which every queue is empty and no window is down for
/// closing asks for more events and for nothing else.
pub proof fn lemma_quiet_dispatch_calls_nothing<H, E, U>(app: AppView<H, E, U>, inputs: Seq<Input>)
    requires
        app.countable(),
        app.all_staying(),
        app.phase is DispatchEvents,
        app.phase->DispatchEvents_window < app.windows.len(),
        inputs.len() == app.windows.len() - app.phase->DispatchEvents_window,
        forall|k: int|
            0 <= k < inputs.len() ==> inputs[k] == (Input::QueueEmpty { should_close: false }),
    ensures
        forall|k: int|
            0 <= k < app.run(inputs).1.len() ==> (#[trigger] app.run(inputs).1[k]) is TakeEvent,
    decreases app.windows.len() - app.phase->DispatchEvents_window,
{
    let i = app.phase->DispatchEvents_window;
    let w = app.windows[i as int];
    let (then, first) = app.step(inputs[0]);
    let rest = inputs.drop_first();
    let recorded = AppView {
        windows: app.windows.update(i as int, w.with_should_close(false)),
        ..app
    };
    assert(w.with_should_close(false) == w);
    assert(recorded.windows =~= app.windows);
    assert(recorded == app);
    assert(app.step(inputs[0]) == app.next_queue(i));
    if i + 1 < app.windows.len() {
        assert(then == app.at(Phase::DispatchEvents { window: (i + 1) as usize }));
        lemma_quiet_dispatch_calls_nothing(then, rest);
        assert(app.run(inputs).1 == first + then.run(rest).1);
    } else {
        lemma_prune_keeps_the_open(app);
        assert(rest.len() == 0);
        assert(then.run(rest) == (then, Seq::<Action<H>>::empty()));
        assert(app.run(inputs).1 =~= first);
    }
}

/// A whole tick in which every queue is empty, no window is down for
/// closing, and nothing is changed from outside: the loop comes back to the
/// start of a tick with the same windows, and on the way the callback for
/// updates of a scene is called once for every window that shows the scene,
/// each time with the time that the tick began with. Two windows on one
/// scene make two calls.
pub proof fn lemma_tick_updates<H, E, U>(app: AppView<H, E, U>, inputs: Seq<Input>, scene: usize)
    requires
        app.countable(),
        app.all_staying(),
        app.phase == Phase::PollEvents,
        app.windows.len() > 0,
        inputs.len() == 1 + 4 * app.windows.len(),
        forall|k: int|
            1 <= k <= app.windows.len() ==> inputs[k] == (Input::QueueEmpty { should_close: false }),
    ensures
        app.run(inputs).0.phase == Phase::PollEvents,
        app.run(inputs).0.windows == app.windows,
        inputs[0] matches Input::Tick { elapsed } ==> timed(app.run(inputs).1, elapsed),
        update_calls(app.run(inputs).1, scene) == (if watched(app.scenes, scene) {
            showing(app.windows, scene)
        } else {
            0
        }),
{
    let n = app.windows.len() as int;
    let (polled, first) = app.step(inputs[0]);
    assert(!app.windows[0].should_close);
    assert(polled.at(Phase::PollEvents) == (AppView { delta: polled.delta, ..app }));
    let rest = inputs.drop_first();
    let queues = rest.take(n);
    let frames = rest.skip(n);
    lemma_run_split(polled, rest, n);
    lemma_quiet_dispatch(polled, queues, scene);
    let dispatched = polled.run(queues).0;
    assert(dispatched == polled.at(Phase::Update { window: 0 }));
    lemma_frames(dispatched, frames, scene);
    assert(app.windows.skip(0) =~= app.windows);
    reveal_with_fuel(update_calls, 3);
    assert(first == seq![Action::<H>::PollEvents, Action::<H>::TakeEvent { window: 0 }]);
    assert(first.drop_last().drop_last().len() == 0);
    assert(update_calls(first, scene) == 0);
    lemma_quiet_dispatch_calls_nothing(polled, queues);
    assert(polled.delta == dispatched.delta);
    assert(timed(first + polled.run(rest).1, polled.delta)) by {
        assert(timed(dispatched.run(frames).1, polled.delta));
        assert(timed(polled.run(queues).1, polled.delta));
    }
    lemma_update_calls_add(polled.run(queues).1, dispatched.run(frames).1, scene);
    lemma_update_calls_add(first, polled.run(rest).1, scene);
}

/// Instances that are placed into an empty scene one after the other get
/// the indices 0, 1, 2 and so on, in the order in which they are placed, and
/// the scene holds them in that order.
pub proof fn lemma_indices_count_up<E, U>(scene: SceneView<E, U>, objects: Seq<Object>, k: int)
    requires
        scene.objects.len() == 0,
        0 <= k <= objects.len(),
    ensures
        scene.placed_all(objects.take(k)).next_index() == k,
        scene.placed_all(objects).objects == objects,
{
    lemma_placed_all(scene, objects.take(k));
    lemma_placed_all(scene, objects);
    assert(scene.objects + objects =~= objects);
}

/// Placing instances appends them, in their order.
pub proof fn lemma_placed_all<E, U>(scene: SceneView<E, U>, objects: Seq<Object>)
    ensures
        scene.placed_all(objects).objects == scene.objects + objects,
    decreases objects.len(),
{
    if objects.len() == 0 {
        assert(scene.objects + objects =~= scene.objects);
    } else {
        lemma_placed_all(scene, objects.drop_last());
        assert(scene.objects + objects =~= (scene.objects + objects.drop_last()).push(
            objects.last(),
        ));
    }
}

/// How many of the commands set the clear colour.
pub open spec fn clear_color_calls(commands: Seq<Command>) -> nat
    decreases commands.len(),
{
    if commands.len() == 0 {
        0
    } else {
        clear_color_calls(commands.drop_last()) + (if commands.last() is ClearColor {
            1nat
        } else {
            0nat
        })
    }
}

/// The clear colours set by two lists of commands add up.
pub proof fn lemma_clear_color_calls_add(a: Seq<Command>, b: Seq<Command>)
    ensures
        clear_color_calls(a + b) == clear_color_calls(a) + clear_color_calls(b),
    decreases b.len(),
{
    if b.len() == 0 {
        assert(a + b =~= a);
    } else {
        assert((a + b).drop_last() =~= a + b.drop_last());
        lemma_clear_color_calls_add(a, b.drop_last());
    }
}

/// Drawing instances never sets the clear colour.
pub proof fn lemma_render_sets_no_clear_color(objects: Seq<Object>, registry: Seq<ObjectTypeView>)
    ensures
        clear_color_calls(render_commands(objects, registry)) == 0,
    decreases objects.len(),
{
    if objects.len() > 0 {
        lemma_render_sets_no_clear_color(objects.drop_last(), registry);
        let last = instance_commands(objects.last(), registry);
        assert(clear_color_calls(last) == 0) by {
            reveal_with_fuel(clear_color_calls, 8);
        }
        lemma_clear_color_calls_add(render_commands(objects.drop_last(), registry), last);
    }
}

/// A frame of a scene sets the clear colour once where it is dirty and not
/// at all where it is clean, and leaves it clean.
pub proof fn lemma_frame_clear_color<H, E, U>(
    window: Window<H>,
    scene: SceneView<E, U>,
    registry: Seq<ObjectTypeView>,
)
    ensures
        clear_color_calls(window.scene_commands(scene, registry)) == (if scene.clear_color_dirty {
            1nat
        } else {
            0nat
        }),
        !scene.cleaned().clear_color_dirty,
{
    let head = seq![Command::MakeCurrent, Command::UseProgram { program: window.shader.0 }]
        + scene.camera.commands();
    let color = scene.clear_color_commands();
    let clear = seq![Command::Clear];
    let draws = render_commands(scene.objects, registry);
    assert(clear_color_calls(head) == 0) by {
        reveal_with_fuel(clear_color_calls, 8);
    }
    assert(clear_color_calls(color) == (if scene.clear_color_dirty {
        1nat
    } else {
        0nat
    })) by {
        reveal_with_fuel(clear_color_calls, 3);
    }
    assert(clear_color_calls(clear) == 0) by {
        reveal_with_fuel(clear_color_calls, 3);
    }
    lemma_render_sets_no_clear_color(scene.objects, registry);
    lemma_clear_color_calls_add(head, color);
    lemma_clear_color_calls_add(head + color, clear);
    lemma_clear_color_calls_add(head + color + clear, draws);
    assert(window.scene_commands(scene, registry) =~= head + color + clear + draws);
}

/// Setting the clear colour marks it dirty. The next frame of the scene
/// hands the colour to the driver, once, and a frame after that does not
/// hand it over again.
pub proof fn lemma_clear_color_is_applied_once<H, E, U>(
    window: Window<H>,
    scene: SceneView<E, U>,
    registry: Seq<ObjectTypeView>,
    color: Vec4,
)
    ensures
        ({
            let set = scene.with_clear_color(color);
            let first = window.scene_commands(set, registry);
            let second = window.scene_commands(set.cleaned(), registry);
            &&& set.clear_color_dirty
            &&& clear_color_calls(first) == 1
            &&& first.contains(Command::ClearColor { color })
            &&& !set.cleaned().clear_color_dirty
            &&& clear_color_calls(second) == 0
        }),
{
    let set = scene.with_clear_color(color);
    lemma_frame_clear_color(window, set, registry);
    lemma_frame_clear_color(window, set.cleaned(), registry);
    let first = window.scene_commands(set, registry);
    assert(first[5] == (Command::ClearColor { color }));
}

/// A window that shows none of the scenes is passed over for the whole
/// tick: its events are dropped without a command or a callback, and its
/// update, its render and its present ask for nothing. The application is
/// the same afterwards, but for the phase.
pub proof fn lemma_unbound_window_is_passed_over<H, E, U>(
    app: AppView<H, E, U>,
    window: usize,
    event: crate::window::WindowEvent,
    input: Input,
)
    requires
        window < app.windows.len(),
        !app.windows[window as int].bound(app.scenes.len()),
    ensures
        app.at(Phase::DispatchEvents { window }).step(Input::Event(event)) == (
            app.at(Phase::DispatchEvents { window }),
            seq![Action::<H>::TakeEvent { window }],
        ),
        app.at(Phase::Update { window }).step(input) == (
            app.at(Phase::Render { window }),
            Seq::<Action<H>>::empty(),
        ),
        app.at(Phase::Render { window }).step(input) == (
            app.at(Phase::Present { window }),
            Seq::<Action<H>>::empty(),
        ),
        app.at(Phase::Present { window }).step(input).1 == Seq::<Action<H>>::empty(),
        app.at(Phase::Present { window }).step(input).0.at(Phase::PollEvents) == app.at(
            Phase::PollEvents,
        ),
{
    let w = app.windows[window as int];
    assert(app.windows.update(window as int, w) =~= app.windows);
    assert(perform::<H>(window, Seq::<Command>::empty()) =~= Seq::<Action<H>>::empty());
    let dispatched = app.at(Phase::DispatchEvents { window }).step(Input::Event(event));
    assert(dispatched.1 =~= seq![Action::<H>::TakeEvent { window }]);
}

/// Whether `window` is one of the windows of the list, up to its flag for
/// closing: with the same options, the same scene to show, the same
/// platform window and the same program.
pub open spec fn is_one_of<H>(windows: Seq<Window<H>>, window: Window<H>) -> bool {
    exists|i: int|
        0 <= i < windows.len() && window == (#[trigger] windows[i]).with_should_close(
            window.should_close,
        )
}

/// The loop makes no window and changes none but for its flag for closing:
/// after a step every window in the list is one that was there before, and
/// shows the scene that it was created for.
pub proof fn lemma_windows_are_fixed<H, E, U>(app: AppView<H, E, U>, input: Input)
    ensures
        forall|j: int|
            0 <= j < app.step(input).0.windows.len() ==> is_one_of(
                app.windows,
                #[trigger] app.step(input).0.windows[j],
            ),
{
    let after = app.step(input).0;
    assert forall|j: int| 0 <= j < after.windows.len() implies is_one_of(
        app.windows,
        #[trigger] after.windows[j],
    ) by {
        let w = after.windows[j];
        match app.phase {
            Phase::DispatchEvents { window } => {
                if window >= app.windows.len() {
                    lemma_filtered_is_one_of(app.windows, j);
                } else {
                    let recorded = match input {
                        Input::QueueEmpty { should_close } => app.windows.update(
                            window as int,
                            app.windows[window as int].with_should_close(should_close),
                        ),
                        _ => app.windows,
                    };
                    if input is Event {
                        assert(w == app.windows[j].with_should_close(w.should_close));
                    } else if window + 1 < app.windows.len() {
                        assert(w == app.windows[j].with_should_close(w.should_close));
                    } else {
                        lemma_filtered_is_one_of(recorded, j);
                        let i = choose|i: int|
                            0 <= i < recorded.len() && w == (#[trigger] recorded[i]).with_should_close(
                                w.should_close,
                            );
                        assert(w == app.windows[i].with_should_close(w.should_close));
                    }
                }
            },
            _ => {
                assert(w == app.windows[j].with_should_close(w.should_close));
            },
        }
    }
}

/// A window that stays after the dispatch is one of the windows that were
/// there.
pub proof fn lemma_filtered_is_one_of<H>(windows: Seq<Window<H>>, j: int)
    requires
        0 <= j < windows.filter(staying()).len(),
    ensures
        is_one_of(windows, windows.filter(staying())[j]),
{
    let kept = windows.filter(staying::<H>());
    let w = kept[j];
    assert(kept.contains(w));
    windows.lemma_filter_contains_rev(staying::<H>(), w);
    let i = choose|i: int| 0 <= i < windows.len() && windows[i] == w;
    assert(w == windows[i].with_should_close(w.should_close));
}

/// While events are handed out, no callback for updates is called: in a
/// tick, every event reaches its callback before the first update.
pub proof fn lemma_dispatch_calls_no_update<H, E, U>(app: AppView<H, E, U>, input: Input)
    requires
        app.phase is PollEvents || app.phase is DispatchEvents,
    ensures
        forall|k: int|
            0 <= k < app.step(input).1.len() ==> !((#[trigger] app.step(input).1[k])
                is InvokeOnUpdate),
        app.step(input).0.phase is Update ==> app.step(input).0.phase == (Phase::Update {
            window: 0,
        }),
{
}

/// Whether the loop can go from the phase `before` to the phase `after` in
/// one step: from the poll to the events of the first window; from the
/// events of a window to more of them, to those of the next window, or to
/// the update of the first window; from the update of a window to its
/// render, from there to its present, and from there to the update of the
/// next window. The start of a tick can follow any phase.
pub open spec fn follows(before: Phase, after: Phase) -> bool {
    ||| after == Phase::PollEvents
    ||| match before {
        Phase::PollEvents => after == (Phase::DispatchEvents { window: 0 }),
        Phase::DispatchEvents { window } => {
            ||| after == before
            ||| after == (Phase::DispatchEvents { window: (window + 1) as usize })
            ||| after == (Phase::Update { window: 0 })
        },
        Phase::Update { window } => after == (Phase::Render { window }),
        Phase::Render { window } => after == (Phase::Present { window }),
        Phase::Present { window } => after == (Phase::Update { window: (window + 1) as usize }),
    }
}

/// Every step of the loop keeps to the order of the phases, whatever the
/// input.
pub proof fn lemma_phase_order<H, E, U>(app: AppView<H, E, U>, input: Input)
    ensures
        follows(app.phase, app.step(input).0.phase),
{
}

/// The start of a tick follows the last phase of a tick only: the present of
/// the last window, the end of a dispatch that left no window, or a poll
/// that found the loop at its end. A window that the phase names but the
/// list does not hold ends the tick as well.
pub proof fn lemma_tick_ends<H, E, U>(app: AppView<H, E, U>, input: Input)
    requires
        app.countable(),
        app.step(input).0.phase == Phase::PollEvents,
    ensures
        match app.phase {
            Phase::PollEvents => app.should_close(),
            Phase::DispatchEvents { window } => window + 1 >= app.windows.len() && !(input is Event
                && window < app.windows.len()) && app.step(input).0.windows.len() == 0,
            Phase::Update { window } => window >= app.windows.len(),
            Phase::Render { window } => window >= app.windows.len(),
            Phase::Present { window } => window + 1 >= app.windows.len(),
        },
{
}

} // verus!
