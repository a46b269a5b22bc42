use vstd::prelude::*;

use crate::command::Command;

verus! {

/// When the overlay window is first created.
#[derive(Clone, Copy, Debug, PartialEq, Eq, Structural)]
pub enum Policy {
    /// Only an `Activate` command creates the window.
    Lazy,
    /// The platform's resume callback creates the window as well.
    Eager,
}

/// What wakes the controller: a command from the listener, or a platform event.
#[derive(Clone, Copy, Debug, PartialEq, Eq, Structural)]
pub enum Input {
    Command(Command),
    /// The event loop resumed (at start-up, or after a suspension).
    Resumed,
    /// The user or the system asked to close the overlay window.
    CloseRequested,
}

/// What the event loop must do to the platform window after a transition.
#[derive(Clone, Copy, Debug, PartialEq, Eq, Structural)]
pub enum Action {
    Nothing,
    /// Build a new overlay window and know it by this handle from now on.
    Create(u64),
    /// Drop the window known by this handle.
    Destroy(u64),
}

/// Visibility of the overlay.
#[derive(Clone, Copy, Debug, PartialEq, Eq, Structural)]
pub enum OverlayState {
    Hidden,
    Visible,
}

/// Mathematical model of a controller.
pub struct OverlayModel {
    /// Handle of the one live window, if there is one.
    pub window: Option<u64>,
    /// Handle that the next created window gets.
    pub next_id: u64,
    pub policy: Policy,
}

/// The handle that follows `id`, wrapping at the top of the range.
pub open spec fn succ(id: u64) -> u64 {
    if id == u64::MAX {
        0
    } else {
        (id + 1) as u64
    }
}

/// A visible overlay's handle is the last one handed out.
pub open spec fn model_wf(s: OverlayModel) -> bool {
    match s.window {
        Some(w) => s.next_id == succ(w),
        None => true,
    }
}

/// The model with a freshly created window.
pub open spec fn opened(s: OverlayModel) -> (OverlayModel, Action) {
    (OverlayModel { window: Some(s.next_id), next_id: succ(s.next_id), policy: s.policy },
     Action::Create(s.next_id))
}

/// The model with its window released.
pub open spec fn closed(s: OverlayModel) -> (OverlayModel, Action) {
    match s.window {
        Some(w) => (OverlayModel { window: None, ..s }, Action::Destroy(w)),
        None => (s, Action::Nothing),
    }
}

/// One transition of the overlay state machine.
pub open spec fn step(s: OverlayModel, input: Input) -> (OverlayModel, Action) {
    match input {
        Input::Command(Command::Activate) => if s.window.is_some() {
            (s, Action::Nothing)
        } else {
            opened(s)
        },
        Input::Command(Command::Deactivate) => closed(s),
        Input::Resumed => if s.window.is_none() && s.policy == Policy::Eager {
            opened(s)
        } else {
            (s, Action::Nothing)
        },
        Input::CloseRequested => closed(s),
    }
}

/// The model after each input in turn.
pub open spec fn run(s: OverlayModel, inputs: Seq<Input>) -> OverlayModel
    decreases inputs.len(),
{
    if inputs.len() == 0 {
        s
    } else {
        run(step(s, inputs[0]).0, inputs.drop_first())
    }
}

/// The set of live platform windows after the event loop carries out `a`.
pub open spec fn live_after(live: Set<u64>, a: Action) -> Set<u64> {
    match a {
        Action::Nothing => live,
        Action::Create(id) => live.insert(id),
        Action::Destroy(id) => live.remove(id),
    }
}

/// The set of live platform windows after the event loop carries out every
/// action that `inputs` bring about, starting from `s` and `live`.
pub open spec fn live_run(s: OverlayModel, live: Set<u64>, inputs: Seq<Input>) -> Set<u64>
    decreases inputs.len(),
{
    if inputs.len() == 0 {
        live
    } else {
        let (s2, a) = step(s, inputs[0]);
        live_run(s2, live_after(live, a), inputs.drop_first())
    }
}

/// The windows that a handle slot refers to.
pub open spec fn handles(w: Option<u64>) -> Set<u64> {
    match w {
        Some(id) => Set::empty().insert(id),
        None => Set::empty(),
    }
}

/// Owner of the overlay window's lifecycle. It lives on the event-loop
/// thread; the event loop performs the returned actions.
pub struct Controller {
    window: Option<u64>,
    next_id: u64,
    policy: Policy,
}

impl View for Controller {
    type V = OverlayModel;

    closed spec fn view(&self) -> OverlayModel {
        OverlayModel { window: self.window, next_id: self.next_id, policy: self.policy }
    }
}

impl Controller {
    pub closed spec fn wf(&self) -> bool {
        model_wf(self@)
    }

    /// A controller with no window.
    pub fn new(policy: Policy) -> (r: Controller)
        ensures
            r.wf(),
            r@.window.is_none(),
            r@.next_id == 0,
            r@.policy == policy,
    {
        Controller { window: None, next_id: 0, policy }
    }

    fn open(&mut self) -> (r: Action)
        ensures
            (final(self)@, r) == opened(old(self)@),
    {
        let id = self.next_id;
        self.window = Some(id);
        self.next_id = if id == u64::MAX {
            0
        } else {
            id + 1
        };
        Action::Create(id)
    }

    fn close(&mut self) -> (r: Action)
        ensures
            (final(self)@, r) == closed(old(self)@),
    {
        match self.window.take() {
            Some(w) => Action::Destroy(w),
            None => Action::Nothing,
        }
    }

    /// Applies one input and says what the event loop must do.
    pub fn handle(&mut self, input: Input) -> (r: Action)
        requires
            old(self).wf(),
        ensures
            final(self).wf(),
            (final(self)@, r) == step(old(self)@, input),
    {
        proof {
            lemma_step_wf(self@, input);
        }
        match input {
            Input::Command(Command::Activate) => {
                if self.window.is_some() {
                    Action::Nothing
                } else {
                    self.open()
                }
            },
            Input::Command(Command::Deactivate) => self.close(),
            Input::Resumed => {
                if self.window.is_none() && self.policy == Policy::Eager {
                    self.open()
                } else {
                    Action::Nothing
                }
            },
            Input::CloseRequested => self.close(),
        }
    }

    /// One wake of the event loop: at most one pending command first, then
    /// the platform event of this iteration, if any.
    pub fn wake(&mut self, pending: Option<Command>, platform: Option<Input>) -> (r: (
        Action,
        Action,
    ))
        requires
            old(self).wf(),
        ensures
            final(self).wf(),
            ({
                let mid = match pending {
                    Some(c) => step(old(self)@, Input::Command(c)),
                    None => (old(self)@, Action::Nothing),
                };
                let last = match platform {
                    Some(p) => step(mid.0, p),
                    None => (mid.0, Action::Nothing),
                };
                &&& r.0 == mid.1
                &&& r.1 == last.1
                &&& final(self)@ == last.0
            }),
    {
        let first = match pending {
            Some(c) => self.handle(Input::Command(c)),
            None => Action::Nothing,
        };
        let second = match platform {
            Some(p) => self.handle(p),
            None => Action::Nothing,
        };
        (first, second)
    }

    /// Handle of the live window, if any.
    pub fn window(&self) -> (r: Option<u64>)
        ensures
            r == self@.window,
    {
        self.window
    }

    pub fn state(&self) -> (r: OverlayState)
        ensures
            r == OverlayState::Visible <==> self@.window.is_some(),
    {
        if self.window.is_some() {
            OverlayState::Visible
        } else {
            OverlayState::Hidden
        }
    }
}

/// Every transition keeps a visible overlay's handle the last one handed out.
pub proof fn lemma_step_wf(s: OverlayModel, input: Input)
    requires
        model_wf(s),
    ensures
        model_wf(step(s, input).0),
{
}

/// The live windows follow one transition: after the event loop carries out
/// the action, exactly the handle that the model holds is live.
proof fn lemma_step_live(s: OverlayModel, input: Input)
    requires
        model_wf(s),
    ensures
        live_after(handles(s.window), step(s, input).1) =~= handles(step(s, input).0.window),
{
}

proof fn lemma_run_two(s: OverlayModel, live: Set<u64>, a: Input, b: Input)
    ensures
        run(s, seq![a, b]) == step(step(s, a).0, b).0,
        live_run(s, live, seq![a, b]) == live_after(
            live_after(live, step(s, a).1),
            step(step(s, a).0, b).1,
        ),
{
    reveal_with_fuel(run, 3);
    reveal_with_fuel(live_run, 3);
    let t = seq![a, b];
    assert(t.drop_first() =~= seq![b]);
    assert(t.drop_first().drop_first() =~= Seq::<Input>::empty());
}

/// Whatever the inputs, the model stays well formed and the windows that the
/// event loop holds are exactly the one handle the model holds, if any: the
/// handle is present iff the overlay is visible, and at most one window lives.
pub proof fn lemma_live_windows_match(s: OverlayModel, live: Set<u64>, inputs: Seq<Input>)
    requires
        model_wf(s),
        live == handles(s.window),
    ensures
        model_wf(run(s, inputs)),
        live_run(s, live, inputs) == handles(run(s, inputs).window),
        live_run(s, live, inputs).len() <= 1,
    decreases inputs.len(),
{
    if inputs.len() > 0 {
        lemma_step_wf(s, inputs[0]);
        lemma_step_live(s, inputs[0]);
        lemma_live_windows_match(step(s, inputs[0]).0, live_after(live, step(s, inputs[0]).1), inputs.drop_first());
    }
    let w = run(s, inputs).window;
    if w.is_some() {
        assert(handles(w).len() == 1);
    } else {
        assert(handles(w).len() == 0);
    }
}

/// Activating an active overlay changes nothing and creates nothing: after two
/// activations exactly one window lives.
pub proof fn lemma_activate_idempotent(s: OverlayModel, live: Set<u64>)
    requires
        model_wf(s),
        live == handles(s.window),
    ensures
        step(s, Input::Command(Command::Activate)).0.window.is_some(),
        step(step(s, Input::Command(Command::Activate)).0, Input::Command(Command::Activate)) == (
        step(s, Input::Command(Command::Activate)).0, Action::Nothing),
        live_run(
            s,
            live,
            seq![Input::Command(Command::Activate), Input::Command(Command::Activate)],
        ).len() == 1,
{
    let t = seq![Input::Command(Command::Activate), Input::Command(Command::Activate)];
    lemma_run_two(s, live, t[0], t[1]);
    lemma_live_windows_match(s, live, t);
}

/// Deactivating a hidden overlay changes nothing and destroys nothing: after
/// two deactivations no window lives.
pub proof fn lemma_deactivate_idempotent(s: OverlayModel, live: Set<u64>)
    requires
        model_wf(s),
        live == handles(s.window),
    ensures
        step(s, Input::Command(Command::Deactivate)).0.window.is_none(),
        step(step(s, Input::Command(Command::Deactivate)).0, Input::Command(Command::Deactivate))
            == (step(s, Input::Command(Command::Deactivate)).0, Action::Nothing),
        live_run(
            s,
            live,
            seq![Input::Command(Command::Deactivate), Input::Command(Command::Deactivate)],
        ).len() == 0,
{
    let t = seq![Input::Command(Command::Deactivate), Input::Command(Command::Deactivate)];
    lemma_run_two(s, live, t[0], t[1]);
    lemma_live_windows_match(s, live, t);
}

/// After the platform closes the window, the next activation creates a new
/// window under a handle other than the closed one.
pub proof fn lemma_recovery_after_close(s: OverlayModel)
    requires
        model_wf(s),
    ensures
        ({
            let shown = step(s, Input::Command(Command::Activate)).0;
            let gone = step(shown, Input::CloseRequested).0;
            let again = step(gone, Input::Command(Command::Activate));
            &&& shown.window.is_some()
            &&& gone.window.is_none()
            &&& again.0.window.is_some()
            &&& again.0.window != shown.window
            &&& again.1 == Action::Create(again.0.window.unwrap())
            &&& run(
                s,
                seq![
                    Input::Command(Command::Activate),
                    Input::CloseRequested,
                    Input::Command(Command::Activate),
                ],
            ) == again.0
        }),
{
    let t = seq![
        Input::Command(Command::Activate),
        Input::CloseRequested,
        Input::Command(Command::Activate),
    ];
    reveal_with_fuel(run, 4);
    assert(t.drop_first() =~= seq![Input::CloseRequested, Input::Command(Command::Activate)]);
    assert(t.drop_first().drop_first() =~= seq![Input::Command(Command::Activate)]);
    assert(t.drop_first().drop_first().drop_first() =~= Seq::<Input>::empty());
}

/// An activation and a resume callback, in either order, end in the same
/// state with exactly one live window, never two.
pub proof fn lemma_no_duplicate_window(s: OverlayModel, live: Set<u64>)
    requires
        model_wf(s),
        live == handles(s.window),
    ensures
        run(s, seq![Input::Command(Command::Activate), Input::Resumed]) == run(
            s,
            seq![Input::Resumed, Input::Command(Command::Activate)],
        ),
        live_run(s, live, seq![Input::Command(Command::Activate), Input::Resumed]).len() == 1,
        live_run(s, live, seq![Input::Resumed, Input::Command(Command::Activate)]).len() == 1,
{
    let ar = seq![Input::Command(Command::Activate), Input::Resumed];
    let ra = seq![Input::Resumed, Input::Command(Command::Activate)];
    lemma_run_two(s, live, ar[0], ar[1]);
    lemma_run_two(s, live, ra[0], ra[1]);
    lemma_live_windows_match(s, live, ar);
    lemma_live_windows_match(s, live, ra);
}

} // verus!
