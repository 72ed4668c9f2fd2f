//! Decision core of the hook lifecycle adapter.
//!
//! The runtime adapter owns a pinned hook value and at most one shared
//! cancellation token. A poll task holds a weak handle on that token; the
//! adapter itself holds the one strong handle. Every decision the runtime
//! has to make — schedule a new poll task after a render, stop a suspended
//! task whose owner is gone, reset the obligation when the properties
//! change — is a pure function of what the runtime can observe, and those
//! functions live here with full contracts. The surrounding runtime only
//! performs the actions these decisions call for.

use vstd::prelude::*;

verus! {

/// Lifecycle of the cancellation token, as the adapter sees it.
///
/// `Unset`: no token exists (fresh adapter, or the token was dropped by a
/// properties change). `Armed`: a token exists and a poll task still holds
/// a weak handle on it. `Completed`: a token exists but its task has
/// finished and released its weak handle, so a new task may be armed.
#[derive(Clone, Copy, PartialEq, Eq, Structural, Debug)]
pub enum TokenState {
    Unset,
    Armed,
    Completed,
}

/// Reference counts observed on a live shared token: `strong` handles keep
/// the token alive, `weak` handles only observe it.
#[derive(Clone, Copy, PartialEq, Eq, Structural, Debug)]
pub struct TokenCounts {
    pub strong: u64,
    pub weak: u64,
}

/// A post-render call schedules a new poll task exactly when no task is
/// armed: either no token exists, or the previous task has completed.
pub open spec fn schedules_spec(t: TokenState) -> bool {
    t is Unset || t is Completed
}

/// The token state after a post-render call: scheduling arms the token,
/// and an already armed token is left alone.
pub open spec fn rendered_next_spec(t: TokenState) -> TokenState {
    if schedules_spec(t) {
        TokenState::Armed
    } else {
        t
    }
}

/// The token state after a properties change: the token is dropped,
/// whatever it was.
pub open spec fn changed_next_spec(t: TokenState) -> TokenState {
    TokenState::Unset
}

/// A token whose counts show one strong handle and no weak handle has lost
/// its poll task, so it may be replaced and a new task armed.
pub open spec fn can_rearm_spec(c: TokenCounts) -> bool {
    c.weak == 0 && c.strong == 1
}

/// What the adapter knows of a token it holds as counts alone.
pub open spec fn state_of_counts_spec(token: Option<TokenCounts>) -> TokenState {
    match token {
        Option::None => TokenState::Unset,
        Option::Some(c) => if can_rearm_spec(c) {
            TokenState::Completed
        } else {
            TokenState::Armed
        },
    }
}

/// Decision a post-render call makes from the observable counts: schedule
/// exactly when no token exists or the existing one may be rearmed.
pub open spec fn rendered_should_schedule_spec(token: Option<TokenCounts>) -> bool {
    match token {
        Option::None => true,
        Option::Some(c) => can_rearm_spec(c),
    }
}

/// What a woken poll task does before touching the hook.
#[derive(Clone, Copy, PartialEq, Eq, Structural, Debug)]
pub enum WakeDecision {
    /// The owner is gone: finish at once, report "no re-render", and never
    /// touch the (possibly freed) hook value.
    FinishWithoutRender,
    /// The owner is alive: the hook may be polled for its next update.
    PollHook,
}

/// What a poll task does with the answer the hook gave.
#[derive(Clone, Copy, PartialEq, Eq, Structural, Debug)]
pub enum PollDecision {
    /// The hook has an update: release the weak handle (the token becomes
    /// rearmable) and finish reporting "re-render needed".
    FinishAndRender,
    /// No update yet: suspend until the scheduler wakes the task again.
    Suspend,
}

/// A task woken with no strong handle left must finish without rendering;
/// otherwise it polls the hook.
pub open spec fn wake_decision_spec(strong_count: u64) -> WakeDecision {
    if strong_count == 0 {
        WakeDecision::FinishWithoutRender
    } else {
        WakeDecision::PollHook
    }
}

/// A ready poll finishes the task and asks for a re-render; a pending poll
/// suspends it.
pub open spec fn poll_decision_spec(ready: bool) -> PollDecision {
    if ready {
        PollDecision::FinishAndRender
    } else {
        PollDecision::Suspend
    }
}

/// Decision the post-render call makes on the counts of the token it holds,
/// if any: `true` means "replace the token and schedule a fresh poll task".
pub fn rendered_should_schedule(token: &Option<TokenCounts>) -> (r: bool)
    ensures
        r == rendered_should_schedule_spec(*token),
{
    match token {
        Option::None => true,
        Option::Some(c) => c.weak == 0 && c.strong == 1,
    }
}

/// Decision a woken poll task makes from the token's remaining strong count.
pub fn task_wake_decision(strong_count: u64) -> (r: WakeDecision)
    ensures
        r == wake_decision_spec(strong_count),
{
    if strong_count == 0 {
        WakeDecision::FinishWithoutRender
    } else {
        WakeDecision::PollHook
    }
}

/// Decision a poll task makes from the hook's answer.
pub fn task_poll_decision(ready: bool) -> (r: PollDecision)
    ensures
        r == poll_decision_spec(ready),
{
    if ready {
        PollDecision::FinishAndRender
    } else {
        PollDecision::Suspend
    }
}

/// The adapter's lifecycle state machine, kept as the abstract token state.
pub struct HookLifecycleState {
    pub token: TokenState,
}

impl HookLifecycleState {
    /// A fresh adapter holds no token.
    pub fn new() -> (s: Self)
        ensures
            s.token is Unset,
    {
        HookLifecycleState { token: TokenState::Unset }
    }

    /// Post-render step: report whether a new poll task must be scheduled,
    /// and arm the token when one is.
    pub fn rendered(&mut self) -> (scheduled: bool)
        ensures
            scheduled == schedules_spec(old(self).token),
            final(self).token == rendered_next_spec(old(self).token),
    {
        match self.token {
            TokenState::Unset | TokenState::Completed => {
                self.token = TokenState::Armed;
                true
            },
            TokenState::Armed => false,
        }
    }

    /// The armed poll task observed a ready update and released its weak
    /// handle: the token may be rearmed by the next post-render step.
    pub fn task_completed(&mut self)
        requires
            old(self).token is Armed,
        ensures
            final(self).token is Completed,
    {
        self.token = TokenState::Completed;
    }

    /// Properties changed: drop any token outright and ask the host to
    /// re-render. A suspended task, if any, will find no strong handle at
    /// its next wake and finish without rendering.
    pub fn erased_changed(&mut self) -> (r: bool)
        ensures
            r,
            final(self).token == changed_next_spec(old(self).token),
            final(self).token is Unset,
    {
        self.token = TokenState::Unset;
        true
    }
}

/// The count-level scheduling decision agrees with the abstract state
/// machine: scheduling happens exactly in the states that `schedules_spec`
/// names.
pub proof fn lemma_counts_agree_with_state(token: Option<TokenCounts>)
    ensures
        rendered_should_schedule_spec(token) == schedules_spec(state_of_counts_spec(token)),
{
}

/// After any post-render step the token is armed, so a second post-render
/// step with no completed poll in between schedules nothing: at most one
/// poll task is ever outstanding.
pub proof fn lemma_second_rendered_schedules_nothing(t: TokenState)
    ensures
        rendered_next_spec(t) is Armed,
        !schedules_spec(rendered_next_spec(t)),
{
}

/// While a poll task is outstanding its weak handle is visible in the
/// token's counts, and the post-render decision then schedules nothing:
/// the count-level mirror of the at-most-one-task guarantee.
pub proof fn lemma_outstanding_task_blocks_scheduling(c: TokenCounts)
    requires
        c.weak >= 1 || c.strong != 1,
    ensures
        !rendered_should_schedule_spec(Option::Some(c)),
        state_of_counts_spec(Option::Some(c)) is Armed,
{
}

/// A poll task woken after its owner was destroyed (no strong handle is
/// left) finishes without rendering, and in particular never reaches the
/// decision that would poll the hook.
pub proof fn lemma_destroyed_owner_never_polls()
    ensures
        wake_decision_spec(0) == WakeDecision::FinishWithoutRender,
        forall|n: u64| wake_decision_spec(n) == WakeDecision::PollHook ==> n > 0,
{
}

/// A properties change leaves the token unset whatever state it was in,
/// and from an unset token the next post-render step always schedules a
/// fresh poll task, however stale the previous token was.
pub proof fn lemma_changed_rearms(t: TokenState)
    ensures
        changed_next_spec(t) is Unset,
        schedules_spec(changed_next_spec(t)),
        rendered_next_spec(changed_next_spec(t)) is Armed,
{
}

} // verus!
