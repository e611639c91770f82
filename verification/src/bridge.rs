//! Sequencing of the task that turns interrupts of the coprocessor into input
//! events.
//!
//! The bridge itself touches no pin, bus or channel. It tells its driver
//! what to do next, and the driver tells it how that went.

use vstd::prelude::*;

verus! {

/// The steps that set the bridge up, in the order in which they are taken.
#[derive(Copy, Clone, Debug, Eq, PartialEq, Structural)]
pub enum SetupStep {
    /// Configure the interrupt pin for falling-edge triggering.
    ConfigurePin,
    /// The task hands its wake-up handle to the setup routine.
    PublishNotifier,
    /// Register the wake callback, which captures that handle.
    RegisterCallback,
    /// Hand the configured pin into the task, which keeps it for good.
    HandOverPin,
}

/// The two halves of handling one wake.
#[derive(Copy, Clone, Debug, Eq, PartialEq, Structural)]
pub enum ProcessingStep {
    /// Read and decode the input word while holding the device lock.
    ReadInputs,
    /// Forward the decoded events, the lock released.
    ForwardEvents,
}

/// Where the bridge stands.
#[derive(Copy, Clone, Debug, Eq, PartialEq, Structural)]
pub enum BridgeState {
    /// Setting up; the step is the one under way.
    Init(SetupStep),
    /// Enabling the interrupt, which arms it for the next edge only.
    Armed,
    /// Blocked until the wake callback rings.
    Waiting,
    /// Handling a wake; the step is the one under way.
    Processing(ProcessingStep),
    /// Setup failed. The bridge never ran and its caller is told so.
    SetupFailed,
    /// The interrupt could not be enabled again. No edge will be seen any
    /// more, so the bridge is beyond repair.
    Dead,
}

/// What the driver of the bridge has to do next.
#[derive(Copy, Clone, Debug, Eq, PartialEq, Structural)]
pub enum BridgeAction {
    Setup(SetupStep),
    EnableInterrupt,
    Wait,
    Process(ProcessingStep),
    /// Return the setup error to the caller.
    ReportSetupFailure,
    /// Give the bridge up for good.
    Abort,
}

/// The action that belongs to a state.
pub open spec fn action_of(state: BridgeState) -> BridgeAction {
    match state {
        BridgeState::Init(step) => BridgeAction::Setup(step),
        BridgeState::Armed => BridgeAction::EnableInterrupt,
        BridgeState::Waiting => BridgeAction::Wait,
        BridgeState::Processing(step) => BridgeAction::Process(step),
        BridgeState::SetupFailed => BridgeAction::ReportSetupFailure,
        BridgeState::Dead => BridgeAction::Abort,
    }
}

/// The state that follows `state` once its action has been carried out,
/// successfully or not.
///
/// A failed setup step ends the setup. A failed enable is fatal. A wake is
/// handled to its end whatever the read or the forwarding came to, and the
/// interrupt is enabled again before the bridge waits.
pub open spec fn next_state(state: BridgeState, succeeded: bool) -> BridgeState {
    match state {
        BridgeState::Init(step) => if !succeeded {
            BridgeState::SetupFailed
        } else {
            match step {
                SetupStep::ConfigurePin => BridgeState::Init(SetupStep::PublishNotifier),
                SetupStep::PublishNotifier => BridgeState::Init(SetupStep::RegisterCallback),
                SetupStep::RegisterCallback => BridgeState::Init(SetupStep::HandOverPin),
                SetupStep::HandOverPin => BridgeState::Armed,
            }
        },
        BridgeState::Armed => if succeeded {
            BridgeState::Waiting
        } else {
            BridgeState::Dead
        },
        BridgeState::Waiting => if succeeded {
            BridgeState::Processing(ProcessingStep::ReadInputs)
        } else {
            BridgeState::Waiting
        },
        BridgeState::Processing(ProcessingStep::ReadInputs) => BridgeState::Processing(
            ProcessingStep::ForwardEvents,
        ),
        BridgeState::Processing(ProcessingStep::ForwardEvents) => BridgeState::Armed,
        BridgeState::SetupFailed => BridgeState::SetupFailed,
        BridgeState::Dead => BridgeState::Dead,
    }
}

/// The state reached from `state` after the given outcomes, first to last.
pub open spec fn run(state: BridgeState, outcomes: Seq<bool>) -> BridgeState
    decreases outcomes.len(),
{
    if outcomes.len() == 0 {
        state
    } else {
        next_state(run(state, outcomes.drop_last()), outcomes.last())
    }
}

/// How far a state is along the way from the start of setup to running.
pub open spec fn progress(state: BridgeState) -> nat {
    match state {
        BridgeState::Init(SetupStep::ConfigurePin) => 0,
        BridgeState::Init(SetupStep::PublishNotifier) => 1,
        BridgeState::Init(SetupStep::RegisterCallback) => 2,
        BridgeState::Init(SetupStep::HandOverPin) => 3,
        _ => 4,
    }
}

/// The bridge between the interrupt pin and the event channel.
pub struct InterruptBridge {
    state: BridgeState,
}

impl View for InterruptBridge {
    type V = BridgeState;

    closed spec fn view(&self) -> BridgeState {
        self.state
    }
}

impl InterruptBridge {
    /// The state in which every bridge starts.
    pub open spec fn start() -> BridgeState {
        BridgeState::Init(SetupStep::ConfigurePin)
    }

    /// A bridge at the start of its setup.
    pub fn new() -> (bridge: Self)
        ensures
            bridge@ == Self::start(),
    {
        Self { state: BridgeState::Init(SetupStep::ConfigurePin) }
    }

    /// Where the bridge stands.
    pub fn state(&self) -> (state: BridgeState)
        ensures
            state == self@,
    {
        self.state
    }

    /// What the driver has to do now.
    pub fn action(&self) -> (action: BridgeAction)
        ensures
            action == action_of(self@),
    {
        match self.state {
            BridgeState::Init(step) => BridgeAction::Setup(step),
            BridgeState::Armed => BridgeAction::EnableInterrupt,
            BridgeState::Waiting => BridgeAction::Wait,
            BridgeState::Processing(step) => BridgeAction::Process(step),
            BridgeState::SetupFailed => BridgeAction::ReportSetupFailure,
            BridgeState::Dead => BridgeAction::Abort,
        }
    }

    /// Takes note of how the current action went, moves on, and says what
    /// the driver has to do next.
    pub fn step(&mut self, succeeded: bool) -> (action: BridgeAction)
        ensures
            final(self)@ == next_state(old(self)@, succeeded),
            action == action_of(final(self)@),
    {
        self.state =
        match self.state {
            BridgeState::Init(step) => if !succeeded {
                BridgeState::SetupFailed
            } else {
                match step {
                    SetupStep::ConfigurePin => BridgeState::Init(SetupStep::PublishNotifier),
                    SetupStep::PublishNotifier => BridgeState::Init(SetupStep::RegisterCallback),
                    SetupStep::RegisterCallback => BridgeState::Init(SetupStep::HandOverPin),
                    SetupStep::HandOverPin => BridgeState::Armed,
                }
            },
            BridgeState::Armed => if succeeded {
                BridgeState::Waiting
            } else {
                BridgeState::Dead
            },
            BridgeState::Waiting => if succeeded {
                BridgeState::Processing(ProcessingStep::ReadInputs)
            } else {
                BridgeState::Waiting
            },
            BridgeState::Processing(ProcessingStep::ReadInputs) => BridgeState::Processing(
                ProcessingStep::ForwardEvents,
            ),
            BridgeState::Processing(ProcessingStep::ForwardEvents) => BridgeState::Armed,
            BridgeState::SetupFailed => BridgeState::SetupFailed,
            BridgeState::Dead => BridgeState::Dead,
        };
        self.action()
    }
}

/// The bridge waits only after it has enabled the interrupt: the one way
/// into `Waiting` from another state is a successful enable.
pub proof fn lemma_waits_only_when_armed(state: BridgeState, succeeded: bool)
    requires
        next_state(state, succeeded) == BridgeState::Waiting,
        state != BridgeState::Waiting,
    ensures
        state == BridgeState::Armed,
        succeeded,
{
}

/// A wake is followed by a new enable whatever came of the read and of the
/// forwarding: two steps after the wake the bridge is `Armed`.
pub proof fn lemma_wake_rearms(read_ok: bool, forward_ok: bool)
    ensures
        run(BridgeState::Waiting, seq![true, read_ok, forward_ok]) == BridgeState::Armed,
{
    let outcomes = seq![true, read_ok, forward_ok];
    assert(outcomes.drop_last() =~= seq![true, read_ok]);
    assert(seq![true, read_ok].drop_last() =~= seq![true]);
    assert(seq![true].drop_last() =~= Seq::<bool>::empty());
    reveal_with_fuel(run, 4);
}

/// A failed enable is the end of the bridge, and nothing brings a bridge
/// back that is dead or whose setup failed.
pub proof fn lemma_failures_are_final(state: BridgeState, outcomes: Seq<bool>)
    ensures
        next_state(BridgeState::Armed, false) == BridgeState::Dead,
        state == BridgeState::Dead ==> run(state, outcomes) == BridgeState::Dead,
        state == BridgeState::SetupFailed ==> run(state, outcomes) == BridgeState::SetupFailed,
    decreases outcomes.len(),
{
    if outcomes.len() > 0 {
        lemma_failures_are_final(state, outcomes.drop_last());
    }
}

/// Setup only moves forward: no step leads back to an earlier setup step or
/// repeats one, so each of them, the registration of the callback among
/// them, is taken at most once.
pub proof fn lemma_setup_moves_forward(state: BridgeState, succeeded: bool)
    ensures
        progress(state) <= progress(next_state(state, succeeded)),
        state is Init ==> progress(state) < progress(next_state(state, succeeded)),
{
}

/// Over any run, the callback is registered at most once: of two moments at
/// which the bridge is at that step, neither is later than the other.
pub proof fn lemma_callback_registered_once(outcomes: Seq<bool>, i: int, j: int)
    requires
        0 <= i <= j <= outcomes.len(),
        run(InterruptBridge::start(), outcomes.take(i)) == BridgeState::Init(
            SetupStep::RegisterCallback,
        ),
        run(InterruptBridge::start(), outcomes.take(j)) == BridgeState::Init(
            SetupStep::RegisterCallback,
        ),
    ensures
        i == j,
{
    if i < j {
        lemma_progress_grows(outcomes.take(j), i + 1, j);
        assert(outcomes.take(j).take(i + 1) =~= outcomes.take(i + 1));
        assert(outcomes.take(j).take(j) =~= outcomes.take(j));
        assert(outcomes.take(i + 1).drop_last() =~= outcomes.take(i));
        lemma_setup_moves_forward(
            run(InterruptBridge::start(), outcomes.take(i)),
            outcomes.take(i + 1).last(),
        );
    }
}

/// Progress never shrinks along a run.
proof fn lemma_progress_grows(outcomes: Seq<bool>, i: int, j: int)
    requires
        0 <= i <= j <= outcomes.len(),
    ensures
        progress(run(InterruptBridge::start(), outcomes.take(i))) <= progress(
            run(InterruptBridge::start(), outcomes.take(j)),
        ),
    decreases j - i,
{
    if i < j {
        lemma_progress_grows(outcomes, i, j - 1);
        assert(outcomes.take(j).drop_last() =~= outcomes.take(j - 1));
        lemma_setup_moves_forward(
            run(InterruptBridge::start(), outcomes.take(j - 1)),
            outcomes.take(j).last(),
        );
    }
}

} // verus!
