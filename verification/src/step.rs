//! The shape shared by every operation that needs the host: it is a function
//! that is called once to learn the first command, and again with the outcome
//! of each command to learn what follows.
use crate::command::{CommandOutcome, RemoteCommand, RemoteCommandView};
use crate::error::{Context, ContextView, DeployError, DeployErrorView};
use vstd::prelude::*;

verus! {

/// What an operation asks for next.
#[derive(Debug, PartialEq, Eq)]
pub enum Step<S, T> {
    /// Run this command and come back with its outcome, naming this stage.
    Run(S, RemoteCommand),
    /// Nothing more to run: the operation has ended with this result.
    Done(Result<T, DeployError>),
}

/// The view of [`Step`] that contracts speak of: every text as its sequence
/// of characters.
pub enum StepView<S, T> {
    Run(S, RemoteCommandView),
    Done(Result<T, DeployErrorView>),
}

impl<S: View, T: View> View for Step<S, T> {
    type V = StepView<S::V, T::V>;

    open spec fn view(&self) -> StepView<S::V, T::V> {
        match self {
            Step::Run(stage, command) => StepView::Run(stage@, command@),
            Step::Done(result) => StepView::Done(result_view(*result)),
        }
    }
}

/// The view of a result: of its value, or of its error.
pub open spec fn result_view<T: View>(result: Result<T, DeployError>) -> Result<T::V, DeployErrorView> {
    match result {
        Ok(value) => Ok(value@),
        Err(error) => Err(error@),
    }
}

/// The previous stage of an operation and the outcome of its command, with
/// the stage taken by its view.
pub open spec fn resumed<S: View>(previous: Option<(S, CommandOutcome)>) -> Option<
    (S::V, CommandOutcome),
> {
    match previous {
        Some((stage, outcome)) => Some((stage@, outcome)),
        None => None,
    }
}

/// The view of a text, where there is one.
pub open spec fn text_view(text: Option<&str>) -> Option<Seq<char>> {
    match text {
        Some(text) => Some(text@),
        None => None,
    }
}

/// A result in the context of the layer that it passes through: a failure
/// gains the context, a success is kept.
pub open spec fn in_context<T>(result: Result<T, DeployErrorView>, context: ContextView) -> Result<
    T,
    DeployErrorView,
> {
    match result {
        Ok(value) => Ok(value),
        Err(error) => Err(error.within(context)),
    }
}

impl<S, T> StepView<S, T> {
    /// The step of a one-command operation, as a step of the operation
    /// that it is the stage `stage` of.
    pub open spec fn staged<R>(self, stage: R) -> StepView<R, T> {
        match self {
            StepView::Run(_, command) => StepView::Run(stage, command),
            StepView::Done(result) => StepView::Done(result),
        }
    }

    /// The step of an operation that wraps another one: a failure gains the
    /// wrapper's context, everything else is kept.
    pub open spec fn within(self, context: ContextView) -> StepView<S, T> {
        match self {
            StepView::Done(result) => StepView::Done(in_context(result, context)),
            other => other,
        }
    }
}

impl<S: View, T: View> Step<S, T> {
    /// The step of a one-command operation, as a step of the operation
    /// that it is the stage `stage` of.
    pub fn staged<R: View>(self, stage: R) -> (step: Step<R, T>)
        ensures
            step@ == self@.staged(stage@),
    {
        match self {
            Step::Run(_, command) => Step::Run(stage, command),
            Step::Done(result) => Step::Done(result),
        }
    }

    /// Adds the context of a wrapping operation to a failure.
    pub fn within(self, context: Context) -> (step: Step<S, T>)
        ensures
            step@ == self@.within(context@),
    {
        match self {
            Step::Done(Err(error)) => Step::Done(Err(error.within(context))),
            other => other,
        }
    }
}

} // verus!
