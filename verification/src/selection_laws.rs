//! What holds of every run of the selector.

use crate::active::ActiveStrategy;
use crate::selector::Action;
use crate::selector::Event;
use crate::selector::Selection;
use crate::selector::SelectionFailure;
use crate::selector::Selector;
use i_slint_core::platform::PlatformError;
use vstd::prelude::*;

verus! {

/// The state that the machine is in after it was taken from `state` through
/// `events`, first to last.
pub open spec fn run<P, L>(state: Selector<P, L>, events: Seq<Event<P, L>>) -> Selector<P, L>
    decreases events.len(),
{
    if events.len() == 0 {
        state
    } else {
        run(state, events.drop_last()).spec_step(events.last())
    }
}

/// True of the states that a session with the override set can be in once the
/// override was read: the legacy strategy is awaited, was chosen, or failed,
/// and no failure of the primary strategy is on record.
pub open spec fn legacy_only<P, L>(state: Selector<P, L>) -> bool {
    match state {
        Selector::TryLegacy { primary_failure } => primary_failure is None,
        Selector::Selected(selection) => {
            &&& selection.strategy is LegacyFramebuffer
            &&& selection.primary_failure is None
        },
        Selector::Failed(failure) => failure.primary_failure is None,
        _ => false,
    }
}

/// Without the override, a primary strategy that opens is the one chosen, and
/// the legacy strategy is not asked for.
pub proof fn primary_is_preferred<P, L>(primary: P)
    ensures
        ({
            let asked = Selector::<P, L>::CheckOverride.spec_step(Event::Override(false));
            let done = asked.spec_step(Event::Primary(Ok(primary)));
            &&& asked.spec_action() == Action::OpenPrimary
            &&& done.spec_action() == Action::Finish
            &&& done.spec_outcome() == Some(
                Ok::<Selection<P, L>, SelectionFailure>(
                    Selection {
                        strategy: ActiveStrategy::DumbBuffer(primary),
                        primary_failure: None,
                    },
                ),
            )
        }),
{
}

/// Without the override, a primary strategy that fails to open makes the
/// machine ask for the legacy strategy, and a legacy strategy that then opens
/// is the one chosen. The primary strategy's failure stays on record.
pub proof fn legacy_is_fallback<P, L>(primary_failure: PlatformError, legacy: L)
    ensures
        ({
            let asked = Selector::<P, L>::CheckOverride.spec_step(
                Event::Override(false),
            ).spec_step(Event::Primary(Err(primary_failure)));
            let done = asked.spec_step(Event::Legacy(Ok(legacy)));
            &&& asked.spec_action() == Action::OpenLegacy
            &&& done.spec_outcome() == Some(
                Ok::<Selection<P, L>, SelectionFailure>(
                    Selection {
                        strategy: ActiveStrategy::LegacyFramebuffer(legacy),
                        primary_failure: Some(primary_failure),
                    },
                ),
            )
        }),
{
}

/// With the override set, the machine never asks for the primary strategy and
/// never chooses it, whatever it is told afterwards: not even an outcome of
/// the primary strategy that is reported to it unasked.
pub proof fn override_skips_primary<P, L>(events: Seq<Event<P, L>>)
    ensures
        ({
            let state = run(
                Selector::<P, L>::CheckOverride.spec_step(Event::Override(true)),
                events,
            );
            &&& legacy_only(state)
            &&& state.spec_action() != Action::OpenPrimary
            &&& !(state.spec_outcome() matches Some(Ok(selection))
                && selection.strategy is DumbBuffer)
        }),
    decreases events.len(),
{
    if events.len() > 0 {
        override_skips_primary::<P, L>(events.drop_last());
    }
}

/// Where both strategies fail to open, or the override is set and the legacy
/// strategy fails to open, the choice fails with the legacy strategy's
/// failure, and no strategy comes out of it.
pub proof fn both_failing_fails<P, L>(
    override_set: bool,
    primary_failure: PlatformError,
    legacy_failure: PlatformError,
)
    ensures
        ({
            let read = Selector::<P, L>::CheckOverride.spec_step(Event::Override(override_set));
            let asked = if override_set {
                read
            } else {
                read.spec_step(Event::Primary(Err(primary_failure)))
            };
            let done = asked.spec_step(Event::Legacy(Err(legacy_failure)));
            &&& asked.spec_action() == Action::OpenLegacy
            &&& done.spec_outcome() == Some(
                Err::<Selection<P, L>, SelectionFailure>(
                    SelectionFailure {
                        error: legacy_failure,
                        primary_failure: if override_set {
                            None
                        } else {
                            Some(primary_failure)
                        },
                    },
                ),
            )
        }),
{
}

/// Once the choice is made it stays made: no later event changes it, so a
/// session has one strategy and there is no retry after the fallback.
pub proof fn choice_is_final<P, L>(state: Selector<P, L>, events: Seq<Event<P, L>>)
    requires
        state.is_terminal(),
    ensures
        run(state, events) == state,
    decreases events.len(),
{
    if events.len() > 0 {
        choice_is_final(state, events.drop_last());
    }
}

/// How far along a state is: the override is read before the primary strategy
/// is tried, the primary strategy before the legacy one, and the legacy one
/// before the choice is made.
pub open spec fn rank<P, L>(state: Selector<P, L>) -> nat {
    match state {
        Selector::CheckOverride => 0,
        Selector::TryPrimary => 1,
        Selector::TryLegacy { .. } => 2,
        Selector::Selected(_) => 3,
        Selector::Failed(_) => 3,
    }
}

/// A step never moves the machine back, and a step that changes the state
/// moves it on. So no run tries a strategy twice, and none tries more than the
/// two: there is one fallback hop and no retry.
pub proof fn steps_only_forward<P, L>(state: Selector<P, L>, event: Event<P, L>)
    ensures
        rank(state) <= rank(state.spec_step(event)),
        state.spec_step(event) != state ==> rank(state) < rank(state.spec_step(event)),
{
}

} // verus!
