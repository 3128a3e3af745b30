//! Bringing a window to the front of the user's current workspace, as a list of
//! requests to the platform.

use vstd::prelude::*;

verus! {

/// The collection-behaviour flag that lets a window appear on full-screen workspaces.
pub const FULL_SCREEN_AUXILIARY: u64 = 0x100;

/// The collection-behaviour flag that pins a window to every workspace. It is never
/// set here: a pinned window would come back on each switch of workspace.
pub const CAN_JOIN_ALL_SPACES: u64 = 0x1;

/// The window level of ordinary windows.
pub const NORMAL_LEVEL: i64 = 0;

/// How the application presents itself to the platform.
#[derive(Clone, Copy, Debug, PartialEq, Eq, Structural)]
pub enum ActivationPolicy {
    /// An ordinary application, which the platform will bring forward.
    Regular,
    /// A background application without a lasting presence in the dock.
    Accessory,
}

/// One request to the platform in the course of bringing a window to the front.
#[derive(Clone, Copy, Debug, PartialEq, Eq, Structural)]
pub enum ActivationStep {
    SetCollectionBehavior { flags: u64 },
    SetLevel { level: i64 },
    SetPolicy { policy: ActivationPolicy },
    MakeKeyAndOrderFront,
    ActivateIgnoringOtherApps,
}

/// The requests that bring a window to the front of the user's current workspace, in
/// order. Where the platform keeps windows in workspaces, the window is first allowed
/// onto full-screen workspaces and put at the normal level; the application then
/// becomes a regular one, the window is raised and the application activated, and the
/// application goes back to being an accessory. Elsewhere there is nothing to do.
pub open spec fn activation_steps(workspaces: bool) -> Seq<ActivationStep> {
    if workspaces {
        seq![
            ActivationStep::SetCollectionBehavior { flags: FULL_SCREEN_AUXILIARY },
            ActivationStep::SetLevel { level: NORMAL_LEVEL },
            ActivationStep::SetPolicy { policy: ActivationPolicy::Regular },
            ActivationStep::MakeKeyAndOrderFront,
            ActivationStep::ActivateIgnoringOtherApps,
            ActivationStep::SetPolicy { policy: ActivationPolicy::Accessory },
        ]
    } else {
        Seq::empty()
    }
}

/// The policy that the application has after `steps`, having had `before`.
pub open spec fn policy_after(before: ActivationPolicy, steps: Seq<ActivationStep>) -> ActivationPolicy
    decreases steps.len(),
{
    if steps.len() == 0 {
        before
    } else {
        match steps.last() {
            ActivationStep::SetPolicy { policy } => policy,
            _ => policy_after(before, steps.drop_last()),
        }
    }
}

/// Lists what to ask of the platform to bring a window to the front; `workspaces`
/// tells whether the platform keeps windows in workspaces.
pub fn bring_window_to_front(workspaces: bool) -> (r: Vec<ActivationStep>)
    ensures
        r@ == activation_steps(workspaces),
{
    if workspaces {
        vec![
            ActivationStep::SetCollectionBehavior { flags: FULL_SCREEN_AUXILIARY },
            ActivationStep::SetLevel { level: NORMAL_LEVEL },
            ActivationStep::SetPolicy { policy: ActivationPolicy::Regular },
            ActivationStep::MakeKeyAndOrderFront,
            ActivationStep::ActivateIgnoringOtherApps,
            ActivationStep::SetPolicy { policy: ActivationPolicy::Accessory },
        ]
    } else {
        Vec::new()
    }
}

/// **Activation is temporary.** An accessory application is an accessory again once a
/// window has been brought to the front; it is a regular application exactly while the
/// window is raised and the application activated; and no step pins the window to all
/// workspaces.
pub proof fn lemma_activation_is_temporary(workspaces: bool)
    ensures
        policy_after(ActivationPolicy::Accessory, activation_steps(workspaces))
            == ActivationPolicy::Accessory,
        forall|i: int|
            0 <= i < activation_steps(workspaces).len() ==> (#[trigger] activation_steps(
                workspaces,
            )[i] matches ActivationStep::SetCollectionBehavior { flags } ==> flags
                & CAN_JOIN_ALL_SPACES == 0),
        forall|i: int|
            0 <= i < activation_steps(workspaces).len() ==> ((#[trigger] activation_steps(
                workspaces,
            )[i] == ActivationStep::MakeKeyAndOrderFront || activation_steps(workspaces)[i]
                == ActivationStep::ActivateIgnoringOtherApps) ==> policy_after(
                ActivationPolicy::Accessory,
                activation_steps(workspaces).take(i),
            ) == ActivationPolicy::Regular),
{
    assert(FULL_SCREEN_AUXILIARY & CAN_JOIN_ALL_SPACES == 0) by (bit_vector);
    if workspaces {
        reveal_with_fuel(policy_after, 8);
    }
}

} // verus!
