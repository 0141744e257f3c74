//! Process-wide working-set trimming. Returning the resident pages concerns the
//! whole process, so it happens only when every window is in the background: a
//! change of that condition arms or cancels a timer, and the timer checks again
//! before it trims.
use crate::actions::Action;
use crate::config::WorkingSetTrim;
use crate::state::{Shared, SharedModel, Status};
use crate::whole::{hold, whole};
use crate::window::{bumped, next_number, Window, WindowModel};
use vstd::prelude::*;

verus! {

pub open spec fn window_models(windows: Seq<Window>) -> Seq<WindowModel> {
    windows.map_values(|w: Window| w@)
}

/// Whether the configured background condition holds across every window.
pub open spec fn in_background(windows: Seq<WindowModel>, trim_when: WorkingSetTrim) -> bool {
    windows.len() > 0 && match trim_when {
        WorkingSetTrim::Never => false,
        WorkingSetTrim::AllUnfocused => forall|i: int|
            0 <= i < windows.len() ==> !(#[trigger] windows[i]).state.value.focused,
        WorkingSetTrim::AllMinimized => forall|i: int|
            0 <= i < windows.len() ==> (#[trigger] windows[i]).state.value.minimized,
    }
}

/// Whether the configured background condition holds across every window.
pub fn condition_met(windows: &Vec<Window>, trim_when: WorkingSetTrim) -> (met: bool)
    ensures
        met == in_background(window_models(windows@), trim_when),
{
    let ghost models = window_models(windows@);
    if windows.len() == 0 {
        return false;
    }
    match trim_when {
        WorkingSetTrim::Never => false,
        WorkingSetTrim::AllUnfocused => {
            let mut i: usize = 0;
            while i < windows.len()
                invariant
                    i <= windows@.len(),
                    models == window_models(windows@),
                    windows@.len() > 0,
                    trim_when is AllUnfocused,
                    forall|j: int| 0 <= j < i ==> !(#[trigger] models[j]).state.value.focused,
                decreases windows@.len() - i,
            {
                assert(models[i as int] == windows@[i as int]@);
                if windows[i].state.value.focused {
                    return false;
                }
                i = i + 1;
            }
            true
        },
        WorkingSetTrim::AllMinimized => {
            let mut i: usize = 0;
            while i < windows.len()
                invariant
                    i <= windows@.len(),
                    models == window_models(windows@),
                    windows@.len() > 0,
                    trim_when is AllMinimized,
                    forall|j: int| 0 <= j < i ==> (#[trigger] models[j]).state.value.minimized,
                decreases windows@.len() - i,
            {
                assert(models[i as int] == windows@[i as int]@);
                if !windows[i].state.value.minimized {
                    return false;
                }
                i = i + 1;
            }
            true
        },
    }
}

/// The trim re-evaluated: nothing while the condition is unchanged, a new
/// generation on a change, and a timer under it when the condition now holds.
#[verifier::opaque]
pub open spec fn trim_reconciled(windows: Seq<WindowModel>, s: SharedModel) -> (
    SharedModel,
    Seq<Action>,
) {
    let met = in_background(windows, s.config.value.resource.value.trim_when);
    let status = s.status.value;
    let generation = next_number(status.trim_generation);
    if met == status.trim_armed {
        (s, Seq::empty())
    } else {
        (
            SharedModel {
                status: whole(
                    Status { trim_armed: met, trim_generation: generation, ..status },
                ),
                ..s
            },
            if met {
                seq![
                    Action::TrimLater {
                        generation,
                        delay: s.config.value.resource.value.trim_after,
                    },
                ]
            } else {
                Seq::empty()
            },
        )
    }
}

/// Re-evaluate the trim condition and arm or cancel the timer on a change.
pub fn reconcile(windows: &Vec<Window>, shared: &mut Shared, out: &mut Vec<Action>)
    ensures
        final(shared)@ == trim_reconciled(window_models(windows@), old(shared)@).0,
        final(out)@ == old(out)@ + trim_reconciled(window_models(windows@), old(shared)@).1,
{
    proof {
        reveal(trim_reconciled);
        assert(out@ + Seq::<Action>::empty() =~= out@);
    }
    let met: bool = condition_met(windows, shared.config.value.resource.value.trim_when);
    let status = shared.status.value;
    if met == status.trim_armed {
        return ;
    }
    let generation: u64 = bumped(status.trim_generation);
    shared.status = hold(Status { trim_armed: met, trim_generation: generation, ..status });
    if met {
        let delay = shared.config.value.resource.value.trim_after;
        out.push(Action::TrimLater { generation, delay });
        assert(out@ =~= old(out)@ + seq![Action::TrimLater { generation, delay }]);
    }
}

/// Trim if the timer is the current one and the condition still holds.
pub fn on_timer(windows: &Vec<Window>, shared: &Shared, generation: u64, out: &mut Vec<Action>)
    ensures
        final(out)@ == if generation == shared@.status.value.trim_generation && in_background(
            window_models(windows@),
            shared@.config.value.resource.value.trim_when,
        ) {
            old(out)@.push(Action::TrimWorkingSet)
        } else {
            old(out)@
        },
{
    if generation == shared.status.value.trim_generation && condition_met(
        windows,
        shared.config.value.resource.value.trim_when,
    ) {
        out.push(Action::TrimWorkingSet);
    }
}

/// Re-evaluating an unchanged state does nothing more, so a periodic poll never
/// resets a running timer.
pub proof fn law_reconcile_is_idempotent(windows: Seq<WindowModel>, s: SharedModel)
    ensures
        ({
            let (once, _) = trim_reconciled(windows, s);
            trim_reconciled(windows, once) == (once, Seq::<Action>::empty())
        }),
{
    reveal(trim_reconciled);
}

} // verus!
