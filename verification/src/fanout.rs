//! Many deployments side by side: each destination has a deployment of its
//! own, and what one of them does never depends on another.
//!
//! A deployment that fails does not stop the others: each one runs to its
//! own end. The whole has failed when any of them has, and reports the
//! failure that came first.
use crate::deploy::{Action, ActionView, Deployment, Event, Stage, StageView};
use crate::error::{DeployError, DeployErrorView, Failure, FailureView};
use crate::step::result_view;
use vstd::prelude::*;

verus! {

/// The deployments to a number of destinations, each at a stage of its own.
#[derive(Debug, PartialEq, Eq)]
pub struct FanOut {
    deployments: Vec<Deployment>,
    stages: Vec<Stage>,
}

/// The view of [`FanOut`] that contracts speak of: every text as its sequence
/// of characters.
pub struct FanOutView {
    pub plans: Seq<Deployment>,
    pub stages: Seq<StageView>,
}

impl View for FanOut {
    type V = FanOutView;

    closed spec fn view(&self) -> FanOutView {
        FanOutView {
            plans: self.deployments@,
            stages: self.stages@.map_values(|stage: Stage| stage@),
        }
    }
}

impl FanOutView {
    /// Every deployment has its stage.
    pub open spec fn wf(self) -> bool {
        self.plans.len() == self.stages.len()
    }

    /// All deployments at their start.
    pub open spec fn begin(plans: Seq<Deployment>) -> FanOutView {
        FanOutView { plans, stages: plans.map_values(|plan: Deployment| plan.begin().0) }
    }

    /// The deployment `index` is told `event`: that deployment moves on as
    /// it would on its own, and every other one stays as it is. An index
    /// that names no deployment changes nothing.
    pub open spec fn next(self, index: int, event: Event) -> (FanOutView, ActionView) {
        if 0 <= index < self.plans.len() {
            let (stage, action) = self.plans[index].next(self.stages[index], event);
            (FanOutView { plans: self.plans, stages: self.stages.update(index, stage) }, action)
        } else {
            (self, ActionView::Finish(Err(DeployErrorView::new(FailureView::Protocol))))
        }
    }

    /// The deployments after the events of `schedule`, each told to the
    /// deployment it is marked for, in order; and for each deployment the
    /// actions it has asked for up to then.
    pub open spec fn run(plans: Seq<Deployment>, schedule: Seq<(int, Event)>) -> (
        FanOutView,
        Seq<Seq<ActionView>>,
    )
        decreases schedule.len(),
    {
        if schedule.len() == 0 {
            (Self::begin(plans), plans.map_values(|plan: Deployment| seq![plan.begin().1]))
        } else {
            let (fan, actions) = Self::run(plans, schedule.drop_last());
            let (index, event) = schedule.last();
            let (next, action) = fan.next(index, event);
            if 0 <= index < plans.len() {
                (next, actions.update(index, actions[index].push(action)))
            } else {
                (next, actions)
            }
        }
    }
}

/// The events of `schedule` that are marked for the deployment `index`, in
/// order.
pub open spec fn events_for(schedule: Seq<(int, Event)>, index: int) -> Seq<Event>
    decreases schedule.len(),
{
    if schedule.len() == 0 {
        Seq::empty()
    } else if schedule.last().0 == index {
        events_for(schedule.drop_last(), index).push(schedule.last().1)
    } else {
        events_for(schedule.drop_last(), index)
    }
}

/// Destinations are independent: however the events of many deployments
/// are interleaved, each deployment goes through the stages and asks for
/// the actions that it would with its own events alone. What happens to
/// another destination, a failure too, changes nothing for it.
pub proof fn lemma_destinations_independent(
    plans: Seq<Deployment>,
    schedule: Seq<(int, Event)>,
    index: int,
)
    requires
        0 <= index < plans.len(),
    ensures
        FanOutView::run(plans, schedule).0.plans == plans,
        FanOutView::run(plans, schedule).0.wf(),
        FanOutView::run(plans, schedule).1.len() == plans.len(),
        FanOutView::run(plans, schedule).0.stages[index] == plans[index].run(
            events_for(schedule, index),
        ).0,
        FanOutView::run(plans, schedule).1[index] == plans[index].run(events_for(schedule, index)).1,
    decreases schedule.len(),
{
    if schedule.len() > 0 {
        lemma_destinations_independent(plans, schedule.drop_last(), index);
        let (told, event) = schedule.last();
        if told == index {
            let events = events_for(schedule, index);
            assert(events.drop_last() =~= events_for(schedule.drop_last(), index));
            assert(events.last() == event);
        }
    }
}

/// The result of the whole: the first failure in `results`, or success
/// where there is none.
pub open spec fn summary(results: Seq<Result<(), DeployError>>) -> Result<(), DeployErrorView>
    decreases results.len(),
{
    if results.len() == 0 {
        Ok(())
    } else {
        match results[0] {
            Err(error) => Err(error@),
            Ok(_) => summary(results.skip(1)),
        }
    }
}

/// The whole succeeds exactly when every deployment has succeeded.
pub proof fn lemma_success_needs_all(results: Seq<Result<(), DeployError>>)
    ensures
        summary(results) is Ok <==> forall|i: int| 0 <= i < results.len() ==> results[i] is Ok,
    decreases results.len(),
{
    if results.len() > 0 {
        let rest = results.skip(1);
        lemma_success_needs_all(rest);
        if summary(results) is Ok {
            assert forall|i: int| 0 <= i < results.len() implies results[i] is Ok by {
                if i > 0 {
                    assert(rest[i - 1] == results[i]);
                }
            }
        } else if results[0] is Ok {
            let i = choose|i: int| 0 <= i < rest.len() && !(rest[i] is Ok);
            assert(rest[i] == results[i + 1]);
        }
    }
}

impl FanOut {
    #[verifier::type_invariant]
    spec fn inv(self) -> bool {
        self.deployments.len() == self.stages.len()
    }

    /// Starts a deployment for each of `deployments`: the deployments at
    /// their start, and the first action of each, in the same order.
    pub fn new(deployments: Vec<Deployment>) -> (started: (FanOut, Vec<Action>))
        ensures
            started.0@ == FanOutView::begin(deployments@),
            started.1@.map_values(|action: Action| action@) == deployments@.map_values(
                |plan: Deployment| plan.begin().1,
            ),
    {
        let mut stages: Vec<Stage> = Vec::new();
        let mut actions: Vec<Action> = Vec::new();
        let mut i: usize = 0;
        while i < deployments.len()
            invariant
                i <= deployments.len(),
                stages.len() == i,
                actions.len() == i,
                forall|k: int| 0 <= k < i ==> stages[k]@ == #[trigger] deployments[k].begin().0,
                forall|k: int| 0 <= k < i ==> actions[k]@ == #[trigger] deployments[k].begin().1,
            decreases deployments.len() - i,
        {
            let (stage, action) = deployments[i].start();
            stages.push(stage);
            actions.push(action);
            i = i + 1;
        }
        proof {
            assert(stages@.map_values(|stage: Stage| stage@) =~= deployments@.map_values(
                |plan: Deployment| plan.begin().0,
            ));
            assert(actions@.map_values(|action: Action| action@) =~= deployments@.map_values(
                |plan: Deployment| plan.begin().1,
            ));
        }
        (FanOut { deployments, stages }, actions)
    }

    /// The number of deployments.
    pub fn len(&self) -> (count: usize)
        ensures
            count == self@.plans.len(),
            self@.wf(),
    {
        proof {
            use_type_invariant(self);
        }
        self.deployments.len()
    }

    /// Tells the deployment `index` what came of the action it asked for,
    /// and returns the action it asks for next.
    pub fn step(self, index: usize, event: Event) -> (next: (FanOut, Action))
        ensures
            (next.0@, next.1@) == self@.next(index as int, event),
    {
        proof {
            use_type_invariant(&self);
        }
        if index < self.deployments.len() {
            let FanOut { deployments, stages } = self;
            let mut stages = stages;
            let ghost before = stages@.map_values(|stage: Stage| stage@);
            let stage = stages.remove(index);
            let (next, action) = deployments[index].step(stage, event);
            stages.insert(index, next);
            assert(stages@.map_values(|stage: Stage| stage@) =~= before.update(index as int, next@));
            (FanOut { deployments, stages }, action)
        } else {
            (self, Action::Finish(Err(DeployError::new(Failure::Protocol))))
        }
    }

    /// The result of the whole, from the results of the deployments in the
    /// order in which they ended: the first failure, or success where
    /// every deployment succeeded.
    pub fn overall(results: Vec<Result<(), DeployError>>) -> (result: Result<(), DeployError>)
        ensures
            result_view(result) == summary(results@),
    {
        let mut results = results;
        let ghost all = results@;
        let mut first: Result<(), DeployError> = Ok(());
        while results.len() > 0
            invariant
                results.len() <= all.len(),
                results@ == all.take(results.len() as int),
                result_view(first) == summary(all.skip(results.len() as int)),
            decreases results.len(),
        {
            let ghost at = results.len() - 1;
            proof {
                assert(all.skip(at).skip(1) =~= all.skip(at + 1));
                assert(all.skip(at)[0] == all[at]);
            }
            match results.pop() {
                Some(Err(error)) => {
                    first = Err(error);
                },
                _ => {},
            }
            assert(results@ =~= all.take(at));
        }
        assert(all.skip(0) =~= all);
        first
    }
}

} // verus!
