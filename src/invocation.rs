use vstd::prelude::*;
use crate::window::{WindowCall, toggle_plan, show_plan, hide_plan, reported_visibility};

verus! {

/// What the application does next for a request: make a windowing call
/// and hand its result back, or answer the caller.
#[derive(Debug, PartialEq, Eq)]
pub enum Action {
    Call(WindowCall),
    Finish(Result<(), String>),
}

/// Mathematical view of an [`Action`].
pub enum ActionModel {
    Call(WindowCall),
    Finish(Result<(), Seq<char>>),
}

impl View for Action {
    type V = ActionModel;

    open spec fn view(&self) -> ActionModel {
        match self {
            Action::Call(c) => ActionModel::Call(*c),
            Action::Finish(Ok(())) => ActionModel::Finish(Ok(())),
            Action::Finish(Err(m)) => ActionModel::Finish(Err(m@)),
        }
    }
}

/// Mathematical view of an [`Invocation`]: the calls it makes in order,
/// how many of them have succeeded, and the cause of the failed one.
pub struct InvocationModel {
    pub plan: Seq<WindowCall>,
    pub completed: nat,
    pub failure: Option<Seq<char>>,
}

impl InvocationModel {
    /// A request that has made no call yet.
    pub open spec fn start(plan: Seq<WindowCall>) -> InvocationModel {
        InvocationModel { plan, completed: 0, failure: None }
    }

    pub open spec fn wf(self) -> bool {
        &&& self.completed <= self.plan.len()
        &&& self.failure is Some ==> self.completed < self.plan.len()
    }

    /// The next action: the first failure ends the request with its cause,
    /// otherwise the calls are made in order, then the request succeeds.
    pub open spec fn next_step(self) -> ActionModel {
        match self.failure {
            Some(m) => ActionModel::Finish(Err(m)),
            None => if self.completed < self.plan.len() {
                ActionModel::Call(self.plan[self.completed as int])
            } else {
                ActionModel::Finish(Ok(()))
            },
        }
    }

    pub open spec fn awaits_call(self) -> bool {
        self.next_step() is Call
    }

    /// The request after the pending call returned `result`.
    pub open spec fn after(self, result: Result<(), Seq<char>>) -> InvocationModel {
        match result {
            Ok(()) => InvocationModel { completed: self.completed + 1, ..self },
            Err(m) => InvocationModel { failure: Some(m), ..self },
        }
    }
}

/// The view of a call's result.
pub open spec fn result_view(r: Result<(), String>) -> Result<(), Seq<char>> {
    match r {
        Ok(()) => Ok(()),
        Err(m) => Err(m@),
    }
}

/// One toggle, show or hide request in progress.
pub struct Invocation {
    calls: Vec<WindowCall>,
    done: usize,
    failure: Option<String>,
}

impl View for Invocation {
    type V = InvocationModel;

    closed spec fn view(&self) -> InvocationModel {
        InvocationModel {
            plan: self.calls@,
            completed: self.done as nat,
            failure: match self.failure {
                Some(m) => Some(m@),
                None => None,
            },
        }
    }
}

impl Invocation {
    fn start(calls: Vec<WindowCall>) -> (r: Invocation)
        ensures
            r@ == InvocationModel::start(calls@),
    {
        Invocation { calls, done: 0, failure: None }
    }

    /// The action that the request asks for now.
    pub fn next_action(&self) -> (a: Action)
        requires
            self@.wf(),
        ensures
            a@ == self@.next_step(),
    {
        match &self.failure {
            Some(m) => Action::Finish(Err(m.clone())),
            None => if self.done < self.calls.len() {
                Action::Call(self.calls[self.done])
            } else {
                Action::Finish(Ok(()))
            },
        }
    }

    /// Whether the request has its answer.
    pub fn is_finished(&self) -> (r: bool)
        requires
            self@.wf(),
        ensures
            r == !self@.awaits_call(),
    {
        self.failure.is_some() || self.done >= self.calls.len()
    }

    /// Hands back the result of the call that [`Invocation::next_action`]
    /// asked for.  A failure ends the request with the cause's text; the
    /// window is left as the failed call left it.
    pub fn record(&mut self, result: Result<(), String>)
        requires
            old(self)@.wf(),
            old(self)@.awaits_call(),
        ensures
            final(self)@ == old(self)@.after(result_view(result)),
            final(self)@.wf(),
            result is Err ==> final(self)@.next_step() == ActionModel::Finish(result_view(result)),
    {
        match result {
            Ok(()) => {
                assert(self.done < self.calls.len());
                self.done = self.done + 1;
            },
            Err(m) => {
                self.failure = Some(m);
            },
        }
    }
}

/// Starts a toggle of a window whose visibility query returned `query`
/// (`None` where the query failed): a visible window is hidden, any other is
/// shown and then focused.
pub fn toggle_window(query: Option<bool>) -> (r: Invocation)
    ensures
        r@ == InvocationModel::start(toggle_plan(query == Some(true))),
        r@.wf(),
{
    let visible = reported_visibility(query);
    let calls = if visible {
        vec![WindowCall::Hide]
    } else {
        vec![WindowCall::Show, WindowCall::SetFocus]
    };
    proof {
        assert(calls@ =~= toggle_plan(visible));
    }
    Invocation::start(calls)
}

/// Starts a show request: the window is shown, then focused.  A focus
/// failure is reported without hiding the window again.
pub fn show_window() -> (r: Invocation)
    ensures
        r@ == InvocationModel::start(show_plan()),
        r@.wf(),
{
    let calls = vec![WindowCall::Show, WindowCall::SetFocus];
    proof {
        assert(calls@ =~= show_plan());
    }
    Invocation::start(calls)
}

/// Starts a hide request.
pub fn hide_window() -> (r: Invocation)
    ensures
        r@ == InvocationModel::start(hide_plan()),
        r@.wf(),
{
    let calls = vec![WindowCall::Hide];
    proof {
        assert(calls@ =~= hide_plan());
    }
    Invocation::start(calls)
}

} // verus!
