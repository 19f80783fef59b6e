use vstd::prelude::*;

verus! {

/// Where the run-loop stands in an application's lifecycle.
#[derive(Clone, Copy, Debug, PartialEq, Eq, Structural)]
pub enum Stage {
    /// The window exists; `startup` has not been called.
    Created,
    /// At the head of the frame loop, where the close flag is checked.
    Running,
    /// `update` has been called for the current frame.
    Updated,
    /// `render` has been called for the current frame.
    Rendered,
    /// The frame has been presented; events are to be polled.
    Presented,
    /// `shutdown` has been called; nothing more happens.
    Closed,
}

/// The next thing the driver of the loop must do.
#[derive(Clone, Copy, Debug, PartialEq, Eq, Structural)]
pub enum LoopAction {
    /// Call the application's `startup`.
    Startup,
    /// Read the clock and call the application's `update` with that time.
    Update,
    /// Call the application's `render` with the time given to `update`.
    Render,
    /// Present the frame (swap buffers).
    Present,
    /// Poll the window system and dispatch the queued events.
    PollEvents,
    /// Call the application's `shutdown`.
    Shutdown,
    /// Leave the loop.
    Exit,
}

/// One transition: from a stage and the window's close flag, the next stage
/// and the action to perform. The flag is consulted only at the loop head.
pub open spec fn step(stage: Stage, close_requested: bool) -> (Stage, LoopAction) {
    match stage {
        Stage::Created => (Stage::Running, LoopAction::Startup),
        Stage::Running => {
            if close_requested {
                (Stage::Closed, LoopAction::Shutdown)
            } else {
                (Stage::Updated, LoopAction::Update)
            }
        },
        Stage::Updated => (Stage::Rendered, LoopAction::Render),
        Stage::Rendered => (Stage::Presented, LoopAction::Present),
        Stage::Presented => (Stage::Running, LoopAction::PollEvents),
        Stage::Closed => (Stage::Closed, LoopAction::Exit),
    }
}

/// The stage reached from `Created` after one transition per close flag.
pub open spec fn stage_after(closes: Seq<bool>) -> Stage
    decreases closes.len(),
{
    if closes.len() == 0 {
        Stage::Created
    } else {
        step(stage_after(closes.drop_last()), closes.last()).0
    }
}

/// The actions produced from `Created`, one per close flag, in order.
pub open spec fn actions_of(closes: Seq<bool>) -> Seq<LoopAction>
    decreases closes.len(),
{
    if closes.len() == 0 {
        Seq::empty()
    } else {
        actions_of(closes.drop_last()).push(step(stage_after(closes.drop_last()), closes.last()).1)
    }
}

/// The lifecycle state machine of the run-loop.
///
/// Its view is the sequence of close flags it has been asked with; the
/// current stage and every action it produced follow from that sequence.
pub struct RunLoop {
    stage: Stage,
    closes: Ghost<Seq<bool>>,
}

impl View for RunLoop {
    type V = Seq<bool>;

    closed spec fn view(&self) -> Seq<bool> {
        self.closes@
    }
}

impl RunLoop {
    #[verifier::type_invariant]
    spec fn inv(&self) -> bool {
        self.stage == stage_after(self.closes@)
    }

    /// A run-loop whose window has just been created.
    pub fn new() -> (r: RunLoop)
        ensures
            r@ == Seq::<bool>::empty(),
    {
        RunLoop { stage: Stage::Created, closes: Ghost(Seq::empty()) }
    }

    /// The current stage.
    pub fn stage(&self) -> (r: Stage)
        ensures
            r == stage_after(self@),
    {
        proof {
            use_type_invariant(self);
        }
        self.stage
    }

    /// Takes one transition, given whether the window has been asked to
    /// close, and returns the action that the driver must now perform.
    pub fn next_action(&mut self, close_requested: bool) -> (r: LoopAction)
        ensures
            final(self)@ == old(self)@.push(close_requested),
            (stage_after(final(self)@), r) == step(stage_after(old(self)@), close_requested),
            r == actions_of(final(self)@).last(),
    {
        proof {
            use_type_invariant(&*self);
        }
        let ghost before = self.closes@;
        let (next, action) = match self.stage {
            Stage::Created => (Stage::Running, LoopAction::Startup),
            Stage::Running => {
                if close_requested {
                    (Stage::Closed, LoopAction::Shutdown)
                } else {
                    (Stage::Updated, LoopAction::Update)
                }
            },
            Stage::Updated => (Stage::Rendered, LoopAction::Render),
            Stage::Rendered => (Stage::Presented, LoopAction::Present),
            Stage::Presented => (Stage::Running, LoopAction::PollEvents),
            Stage::Closed => (Stage::Closed, LoopAction::Exit),
        };
        let ghost after = before.push(close_requested);
        assert(after.drop_last() =~= before);
        *self = RunLoop { stage: next, closes: Ghost(after) };
        action
    }
}

/// The stage that the transition producing `action` leaves the loop in.
pub open spec fn stage_left_by(action: LoopAction) -> Stage {
    match action {
        LoopAction::Startup => Stage::Running,
        LoopAction::Update => Stage::Updated,
        LoopAction::Render => Stage::Rendered,
        LoopAction::Present => Stage::Presented,
        LoopAction::PollEvents => Stage::Running,
        LoopAction::Shutdown => Stage::Closed,
        LoopAction::Exit => Stage::Closed,
    }
}

/// One action per close flag, and the stage after a non-empty run is the one
/// its last action leaves the loop in (never `Created`).
pub proof fn lemma_stage_follows_last_action(closes: Seq<bool>)
    ensures
        actions_of(closes).len() == closes.len(),
        closes.len() > 0 ==> stage_after(closes) == stage_left_by(actions_of(closes).last()),
        closes.len() > 0 ==> stage_after(closes) != Stage::Created,
    decreases closes.len(),
{
    if closes.len() > 0 {
        lemma_stage_follows_last_action(closes.drop_last());
    }
}

/// `startup` is the first action of every run, and it is never performed again.
pub proof fn lemma_startup_exactly_first(closes: Seq<bool>)
    ensures
        closes.len() > 0 ==> actions_of(closes)[0] == LoopAction::Startup,
        forall|i: int|
            0 < i < closes.len() ==> #[trigger] actions_of(closes)[i] != LoopAction::Startup,
    decreases closes.len(),
{
    if closes.len() > 0 {
        let prev = closes.drop_last();
        lemma_startup_exactly_first(prev);
        lemma_stage_follows_last_action(prev);
        lemma_stage_follows_last_action(closes);
    }
}

/// `render` never opens a run, and an action is `render` exactly when the one
/// before it is `update`: every `update` is immediately followed by its
/// `render` (unless the run stops there), and every `render` by an `update`.
pub proof fn lemma_update_render_paired(closes: Seq<bool>)
    ensures
        closes.len() > 0 ==> actions_of(closes)[0] != LoopAction::Render,
        forall|i: int|
            #![trigger actions_of(closes)[i], actions_of(closes)[i + 1]]
            0 <= i && i + 1 < closes.len() ==> (actions_of(closes)[i] == LoopAction::Update
                <==> actions_of(closes)[i + 1] == LoopAction::Render),
    decreases closes.len(),
{
    if closes.len() > 0 {
        let prev = closes.drop_last();
        let acts = actions_of(closes);
        lemma_update_render_paired(prev);
        lemma_stage_follows_last_action(prev);
        lemma_stage_follows_last_action(closes);
        assert forall|i: int|
            #![trigger acts[i], acts[i + 1]]
            0 <= i && i + 1 < closes.len() implies (acts[i] == LoopAction::Update
                <==> acts[i + 1] == LoopAction::Render) by {
            assert(acts[i] == actions_of(prev)[i]);
            if i + 1 < prev.len() {
                assert(acts[i + 1] == actions_of(prev)[i + 1]);
            }
        }
    }
}

/// Once `shutdown` has been performed the loop is closed, and every later
/// action is `Exit`: at most one `shutdown`, and no frame work after it.
pub proof fn lemma_nothing_after_shutdown(closes: Seq<bool>)
    ensures
        forall|i: int|
            0 <= i < closes.len() && #[trigger] actions_of(closes)[i] == LoopAction::Shutdown
                ==> stage_after(closes) == Stage::Closed,
        forall|i: int, j: int|
            0 <= i < j < closes.len() && #[trigger] actions_of(closes)[i] == LoopAction::Shutdown
                ==> #[trigger] actions_of(closes)[j] == LoopAction::Exit,
    decreases closes.len(),
{
    if closes.len() > 0 {
        let prev = closes.drop_last();
        lemma_nothing_after_shutdown(prev);
        lemma_stage_follows_last_action(prev);
        lemma_stage_follows_last_action(closes);
        assert forall|i: int|
            0 <= i < closes.len() && #[trigger] actions_of(closes)[i] == LoopAction::Shutdown
                implies stage_after(closes) == Stage::Closed by {
            if i < prev.len() {
                assert(actions_of(prev)[i] == LoopAction::Shutdown);
            }
        }
        assert forall|i: int, j: int|
            0 <= i < j < closes.len() && #[trigger] actions_of(closes)[i] == LoopAction::Shutdown
                implies #[trigger] actions_of(closes)[j] == LoopAction::Exit by {
            assert(actions_of(prev)[i] == LoopAction::Shutdown);
            if j < prev.len() {
                assert(actions_of(prev)[j] == LoopAction::Exit);
            }
        }
    }
}

/// A close request that stands at four consecutive checks closes the loop,
/// from whatever stage it was in.
pub proof fn lemma_standing_close_request_closes(closes: Seq<bool>)
    ensures
        stage_after(closes.push(true).push(true).push(true).push(true)) == Stage::Closed,
{
    let c1 = closes.push(true);
    let c2 = c1.push(true);
    let c3 = c2.push(true);
    let c4 = c3.push(true);
    assert(c1.drop_last() =~= closes);
    assert(c2.drop_last() =~= c1);
    assert(c3.drop_last() =~= c2);
    assert(c4.drop_last() =~= c3);
    let s0 = stage_after(closes);
    assert(stage_after(c1) == step(s0, true).0);
    assert(stage_after(c2) == step(stage_after(c1), true).0);
    assert(stage_after(c3) == step(stage_after(c2), true).0);
    assert(stage_after(c4) == step(stage_after(c3), true).0);
}

} // verus!
