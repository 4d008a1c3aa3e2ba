use vstd::prelude::*;
use crate::window::{WindowCall, WindowModel, effect, apply_calls, toggle_plan, show_plan, hide_plan};
use crate::invocation::{ActionModel, InvocationModel};

verus! {

/// The window after `n` toggles from `w`, each with a visibility query
/// that answered and calls that succeeded.
pub open spec fn toggled(w: WindowModel, n: nat) -> WindowModel
    decreases n,
{
    if n == 0 {
        w
    } else {
        let p = toggled(w, (n - 1) as nat);
        apply_calls(p, toggle_plan(p.visible))
    }
}

/// A request after its first `n` calls succeeded.
pub open spec fn succeeded(s: InvocationModel, n: nat) -> InvocationModel
    decreases n,
{
    if n == 0 {
        s
    } else {
        succeeded(s, (n - 1) as nat).after(Ok(()))
    }
}

proof fn lemma_apply_one(w: WindowModel, a: WindowCall)
    ensures
        apply_calls(w, seq![a]) == effect(w, a),
{
    let s = seq![a];
    assert(s[0] == a);
    assert(s.drop_first() =~= Seq::<WindowCall>::empty());
    assert(apply_calls(effect(w, a), Seq::<WindowCall>::empty()) == effect(w, a));
}

proof fn lemma_apply_two(w: WindowModel, a: WindowCall, b: WindowCall)
    ensures
        apply_calls(w, seq![a, b]) == effect(effect(w, a), b),
{
    let s = seq![a, b];
    assert(s[0] == a);
    assert(s.drop_first() =~= seq![b]);
    lemma_apply_one(effect(w, a), b);
}

/// A toggle that succeeds flips the window's visibility.
pub proof fn toggle_flips(w: WindowModel)
    ensures
        apply_calls(w, toggle_plan(w.visible)).visible == !w.visible,
        !w.visible ==> apply_calls(w, toggle_plan(w.visible)).focused,
{
    if w.visible {
        lemma_apply_one(w, WindowCall::Hide);
    } else {
        lemma_apply_two(w, WindowCall::Show, WindowCall::SetFocus);
    }
}

/// Successful toggles from a hidden window leave it visible after each odd
/// one and hidden after each even one.
pub proof fn toggles_alternate(w: WindowModel, n: nat)
    requires
        !w.visible,
    ensures
        toggled(w, n).visible == (n % 2 == 1),
    decreases n,
{
    if n > 0 {
        toggles_alternate(w, (n - 1) as nat);
        toggle_flips(toggled(w, (n - 1) as nat));
    }
}

/// A show whose calls succeed leaves the window visible and focused,
/// whatever it was before.
pub proof fn show_makes_visible(w: WindowModel)
    ensures
        apply_calls(w, show_plan()).visible,
        apply_calls(w, show_plan()).focused,
{
    lemma_apply_two(w, WindowCall::Show, WindowCall::SetFocus);
}

/// A hide whose call succeeds leaves the window hidden, whatever it was
/// before.
pub proof fn hide_makes_hidden(w: WindowModel)
    ensures
        !apply_calls(w, hide_plan()).visible,
{
    lemma_apply_one(w, WindowCall::Hide);
}

/// The hide made on focus loss leaves the window hidden, whatever it was
/// before, when that call succeeds.
pub proof fn focus_loss_hides(w: WindowModel)
    ensures
        !effect(w, WindowCall::Hide).visible,
{
}

/// A request whose calls succeed makes exactly its planned calls, in order,
/// and then succeeds.
pub proof fn successful_request(plan: Seq<WindowCall>)
    ensures
        forall|i: nat| i < plan.len() ==>
            #[trigger] succeeded(InvocationModel::start(plan), i).next_step()
                == ActionModel::Call(plan[i as int]),
        succeeded(InvocationModel::start(plan), plan.len()).next_step() == ActionModel::Finish(
            Ok(()),
        ),
{
    assert forall|i: nat| i <= plan.len() implies succeeded(InvocationModel::start(plan), i)
        == (InvocationModel { plan, completed: i, failure: None }) by {
        lemma_succeeded_counts(plan, i);
    }
}

proof fn lemma_succeeded_counts(plan: Seq<WindowCall>, n: nat)
    requires
        n <= plan.len(),
    ensures
        succeeded(InvocationModel::start(plan), n) == (InvocationModel {
            plan,
            completed: n,
            failure: None,
        }),
    decreases n,
{
    if n > 0 {
        lemma_succeeded_counts(plan, (n - 1) as nat);
    }
}

/// A failed call ends the request: it is answered with the cause's text
/// and no further call is made, so nothing undoes what was done before.
pub proof fn failure_ends_request(s: InvocationModel, m: Seq<char>)
    requires
        s.wf(),
        s.awaits_call(),
    ensures
        s.after(Err(m)).wf(),
        !s.after(Err(m)).awaits_call(),
        s.after(Err(m)).next_step() == ActionModel::Finish(Err(m)),
        s.after(Err(m)).completed == s.completed,
{
}

/// A hide request whose call fails is answered with that call's cause.
pub proof fn failed_hide_reports_cause(m: Seq<char>)
    ensures
        InvocationModel::start(hide_plan()).after(Err(m)).next_step() == ActionModel::Finish(
            Err(m),
        ),
{
    failure_ends_request(InvocationModel::start(hide_plan()), m);
}

} // verus!
