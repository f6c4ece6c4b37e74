//! Choosing the strategy of a session.
//!
//! The choice is a small state machine. It starts in `CheckOverride`, where it
//! waits to learn whether the operator forced the legacy strategy. If so it
//! goes straight to `TryLegacy` and the primary strategy is never opened;
//! otherwise it goes to `TryPrimary`, and on to `TryLegacy` only if the primary
//! strategy could not be opened. There is one fallback hop and no retry.
//!
//! The machine decides; it opens nothing. Whoever drives it opens the strategy
//! that [`Selector::action`] asks for and hands the outcome to
//! [`Selector::step`]. [`select`] is such a driver, over two opening routines.

use crate::active::ActiveStrategy;
use i_slint_core::platform::PlatformError;
use vstd::prelude::*;

verus! {

/// A session's strategy, together with why the primary strategy was passed
/// over where it was tried and failed.
pub struct Selection<P, L> {
    /// The strategy that was opened.
    pub strategy: ActiveStrategy<P, L>,
    /// The failure of the primary strategy, where the legacy strategy was
    /// chosen as its fallback.
    pub primary_failure: Option<PlatformError>,
}

/// No strategy could be opened.
pub struct SelectionFailure {
    /// The failure of the legacy strategy, the last one tried. This is what
    /// the session reports.
    pub error: PlatformError,
    /// The failure of the primary strategy, where it was tried. It is kept so
    /// that an operator can see why the better strategy was not used.
    pub primary_failure: Option<PlatformError>,
}

/// What the driver of a [`Selector`] is asked to do next.
#[derive(Clone, Copy, Debug, PartialEq, Eq, Structural)]
pub enum Action {
    /// Find out whether the override is set.
    ReadOverride,
    /// Open the primary strategy.
    OpenPrimary,
    /// Open the legacy strategy.
    OpenLegacy,
    /// Nothing: the choice is made.
    Finish,
}

/// What the driver of a [`Selector`] reports back.
pub enum Event<P, L> {
    /// Whether the override is set.
    Override(bool),
    /// How opening the primary strategy went.
    Primary(Result<P, PlatformError>),
    /// How opening the legacy strategy went.
    Legacy(Result<L, PlatformError>),
}

/// The state of the choice.
pub enum Selector<P, L> {
    /// Nothing is known yet: the override is to be read.
    CheckOverride,
    /// The override is not set: the primary strategy is to be opened.
    TryPrimary,
    /// The legacy strategy is to be opened, either because the override is set
    /// (then no failure is on record) or because the primary strategy failed
    /// with the failure on record.
    TryLegacy { primary_failure: Option<PlatformError> },
    /// The choice is made.
    Selected(Selection<P, L>),
    /// No strategy could be opened.
    Failed(SelectionFailure),
}

impl<P, L> Selector<P, L> {
    /// True in the two states in which the choice is made.
    pub open spec fn is_terminal(self) -> bool {
        self is Selected || self is Failed
    }

    /// What this state asks of the driver.
    pub open spec fn spec_action(self) -> Action {
        match self {
            Selector::CheckOverride => Action::ReadOverride,
            Selector::TryPrimary => Action::OpenPrimary,
            Selector::TryLegacy { .. } => Action::OpenLegacy,
            Selector::Selected(_) => Action::Finish,
            Selector::Failed(_) => Action::Finish,
        }
    }

    /// The state that follows this one on `event`. An event that this state
    /// did not ask for leaves it as it is.
    pub open spec fn spec_step(self, event: Event<P, L>) -> Self {
        match (self, event) {
            (Selector::CheckOverride, Event::Override(true)) => Selector::TryLegacy {
                primary_failure: None,
            },
            (Selector::CheckOverride, Event::Override(false)) => Selector::TryPrimary,
            (Selector::TryPrimary, Event::Primary(Ok(p))) => Selector::Selected(
                Selection { strategy: ActiveStrategy::DumbBuffer(p), primary_failure: None },
            ),
            (Selector::TryPrimary, Event::Primary(Err(e))) => Selector::TryLegacy {
                primary_failure: Some(e),
            },
            (Selector::TryLegacy { primary_failure }, Event::Legacy(Ok(l))) => Selector::Selected(
                Selection { strategy: ActiveStrategy::LegacyFramebuffer(l), primary_failure },
            ),
            (Selector::TryLegacy { primary_failure }, Event::Legacy(Err(e))) => Selector::Failed(
                SelectionFailure { error: e, primary_failure },
            ),
            (state, _) => state,
        }
    }

    /// The outcome of the choice, once it is made.
    pub open spec fn spec_outcome(self) -> Option<Result<Selection<P, L>, SelectionFailure>> {
        match self {
            Selector::Selected(selection) => Some(Ok(selection)),
            Selector::Failed(failure) => Some(Err(failure)),
            _ => None,
        }
    }

    /// The state in which every choice starts.
    pub fn start() -> (s: Self)
        ensures
            s == Selector::<P, L>::CheckOverride,
    {
        Selector::CheckOverride
    }

    /// What this state asks of the driver.
    pub fn action(&self) -> (a: Action)
        ensures
            a == self.spec_action(),
    {
        match self {
            Selector::CheckOverride => Action::ReadOverride,
            Selector::TryPrimary => Action::OpenPrimary,
            Selector::TryLegacy { .. } => Action::OpenLegacy,
            Selector::Selected(_) => Action::Finish,
            Selector::Failed(_) => Action::Finish,
        }
    }

    /// Takes the machine from this state to the next on `event`.
    pub fn step(self, event: Event<P, L>) -> (next: Self)
        ensures
            next == self.spec_step(event),
    {
        match (self, event) {
            (Selector::CheckOverride, Event::Override(true)) => Selector::TryLegacy {
                primary_failure: None,
            },
            (Selector::CheckOverride, Event::Override(false)) => Selector::TryPrimary,
            (Selector::TryPrimary, Event::Primary(Ok(p))) => Selector::Selected(
                Selection { strategy: ActiveStrategy::DumbBuffer(p), primary_failure: None },
            ),
            (Selector::TryPrimary, Event::Primary(Err(e))) => Selector::TryLegacy {
                primary_failure: Some(e),
            },
            (Selector::TryLegacy { primary_failure }, Event::Legacy(Ok(l))) => Selector::Selected(
                Selection { strategy: ActiveStrategy::LegacyFramebuffer(l), primary_failure },
            ),
            (Selector::TryLegacy { primary_failure }, Event::Legacy(Err(e))) => Selector::Failed(
                SelectionFailure { error: e, primary_failure },
            ),
            (state, _) => state,
        }
    }

    /// The outcome of the choice if it is made; otherwise the state itself,
    /// untouched, so that the driver can go on.
    pub fn into_outcome(self) -> (r: Result<Result<Selection<P, L>, SelectionFailure>, Self>)
        ensures
            match r {
                Ok(outcome) => self.spec_outcome() == Some(outcome),
                Err(state) => self.spec_outcome() is None && state == self,
            },
    {
        match self {
            Selector::Selected(selection) => Ok(Ok(selection)),
            Selector::Failed(failure) => Ok(Err(failure)),
            state => Err(state),
        }
    }
}

/// How the primary strategy came to be passed over, as far as the record
/// `primary_failure` tells: with no failure on record the override was set and
/// the primary strategy was left alone; with one on record the override was
/// not set and opening the primary strategy failed with it.
pub open spec fn passed_over<P, FP: FnOnce() -> Result<P, PlatformError>>(
    override_set: bool,
    open_primary: FP,
    primary_failure: Option<PlatformError>,
) -> bool {
    match primary_failure {
        None => override_set,
        Some(e) => !override_set && open_primary.ensures((), Err(e)),
    }
}

/// Chooses the strategy of a session, opening strategies with the two
/// routines given.
///
/// With the override set, only the legacy strategy is opened, and its outcome
/// is the outcome. Without it the primary strategy is opened first; if that
/// succeeds it is chosen and the legacy strategy is left alone; if it fails
/// the legacy strategy is opened, and its outcome is the outcome, with the
/// primary strategy's failure kept beside it.
///
/// Nothing is demanded of `open_primary` where the override is set: a call of
/// it there would not meet its precondition, so none is made.
pub fn select<P, L, FP, FL>(override_set: bool, open_primary: FP, open_legacy: FL) -> (r: Result<
    Selection<P, L>,
    SelectionFailure,
>) where FP: FnOnce() -> Result<P, PlatformError>, FL: FnOnce() -> Result<L, PlatformError>
    requires
        !override_set ==> open_primary.requires(()),
        override_set ==> open_legacy.requires(()),
        forall|e: PlatformError| #[trigger]
            open_primary.ensures((), Err(e)) ==> open_legacy.requires(()),
    ensures
        match r {
            Ok(Selection { strategy: ActiveStrategy::DumbBuffer(p), primary_failure }) => {
                &&& !override_set
                &&& open_primary.ensures((), Ok(p))
                &&& primary_failure is None
            },
            Ok(Selection { strategy: ActiveStrategy::LegacyFramebuffer(l), primary_failure }) => {
                &&& open_legacy.ensures((), Ok(l))
                &&& passed_over(override_set, open_primary, primary_failure)
            },
            Err(SelectionFailure { error, primary_failure }) => {
                &&& open_legacy.ensures((), Err(error))
                &&& passed_over(override_set, open_primary, primary_failure)
            },
        },
{
    let state = Selector::start().step(Event::Override(override_set));
    let state = match state.action() {
        Action::OpenPrimary => {
            let opened = open_primary();
            state.step(Event::Primary(opened))
        },
        _ => state,
    };
    let state = match state.action() {
        Action::OpenLegacy => {
            let opened = open_legacy();
            state.step(Event::Legacy(opened))
        },
        _ => state,
    };
    match state.into_outcome() {
        Ok(outcome) => outcome,
        // After the legacy strategy's outcome, or the primary strategy's
        // success, the choice is made: no state is left to come back here.
        Err(_) => vstd::pervasive::unreached(),
    }
}

} // verus!
