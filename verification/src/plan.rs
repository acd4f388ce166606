use std::collections::VecDeque;
use vstd::prelude::*;
use crate::effect::{
    Next, NextView, Request, RequestView, Response, ResponseView, ends_with, requests_made,
    result_after, settle, settled, subject_of,
};
use crate::failure::FailureView;

verus! {

/// The mathematical values of a sequence of requests.
pub open spec fn requests_of(requests: Seq<Request>) -> Seq<RequestView> {
    requests.map_values(|r: Request| r@)
}

/// A list of requests that is carried out in order and given up at the first failure.
#[derive(Debug, PartialEq, Eq)]
pub struct Plan {
    /// The requests that have not been made yet.
    pub rest: VecDeque<Request>,
    /// What the request that has been made last is about.
    pub subject: String,
}

/// The mathematical value of a [`Plan`].
pub struct PlanView {
    pub rest: Seq<RequestView>,
    pub subject: Seq<char>,
}

impl View for Plan {
    type V = PlanView;

    open spec fn view(&self) -> PlanView {
        PlanView { rest: requests_of(self.rest@), subject: self.subject@ }
    }
}

/// How a plan of `requests` begins: with its first request, or, if it has none, by
/// ending with success.
pub open spec fn plan_start(requests: Seq<RequestView>) -> NextView<PlanView> {
    if requests.len() == 0 {
        NextView::Finish(Ok(()))
    } else {
        NextView::Continue(
            PlanView { rest: requests.drop_first(), subject: subject_of(requests[0]) },
            requests[0],
        )
    }
}

/// How a plan goes on: after a success with what is left of it, after a failure not at
/// all.
pub open spec fn plan_step(state: PlanView, response: ResponseView) -> NextView<PlanView> {
    match settled(response, state.subject) {
        Ok(_) => plan_start(state.rest),
        Err(failure) => NextView::Finish(Err(failure)),
    }
}

impl Plan {
    /// Begins to carry out `requests` in order.
    pub fn start(requests: VecDeque<Request>) -> (next: Next<Plan>)
        ensures
            next@ == plan_start(requests_of(requests@)),
    {
        let mut rest = requests;
        let ghost all = rest@;
        match rest.pop_front() {
            None => Next::Finish(Ok(())),
            Some(first) => {
                assert(requests_of(rest@) == requests_of(all).drop_first());
                let subject = first.subject();
                Next::Continue(Plan { rest, subject }, first)
            },
        }
    }

    /// Takes the response to the request made last and makes the next one.
    pub fn step(self, response: Response) -> (next: Next<Plan>)
        ensures
            next@ == plan_step(self@, response@),
    {
        match settle(response, self.subject.as_str()) {
            Ok(_) => Plan::start(self.rest),
            Err(failure) => Next::Finish(Err(failure)),
        }
    }
}

/// The way a plan goes on, as a function.
pub open spec fn plan_steps() -> spec_fn(PlanView, ResponseView) -> NextView<PlanView> {
    |state: PlanView, response: ResponseView| plan_step(state, response)
}

/// A plan whose requests all succeed makes exactly its requests, in their order, and
/// ends with success.
pub proof fn law_plan_in_order(requests: Seq<RequestView>, responses: Seq<ResponseView>)
    requires
        responses.len() == requests.len(),
        forall|i: int|
            0 <= i < responses.len() ==> settled(#[trigger] responses[i], subject_of(requests[i]))
                is Ok,
    ensures
        ends_with(plan_steps(), plan_start(requests), responses),
        requests_made(plan_steps(), plan_start(requests), responses) == requests,
        result_after(plan_steps(), plan_start(requests), responses) == Ok::<(), FailureView>(()),
    decreases requests.len(),
{
    if requests.len() > 0 {
        let state = PlanView { rest: requests.drop_first(), subject: subject_of(requests[0]) };
        let next = plan_step(state, responses[0]);
        assert(plan_steps()(state, responses[0]) == next);
        assert(next == plan_start(requests.drop_first()));
        assert forall|i: int| 0 <= i < responses.drop_first().len() implies settled(
            #[trigger] responses.drop_first()[i],
            subject_of(requests.drop_first()[i]),
        ) is Ok by {
            assert(responses.drop_first()[i] == responses[i + 1]);
        }
        law_plan_in_order(requests.drop_first(), responses.drop_first());
        assert(requests_made(plan_steps(), plan_start(requests), responses) =~= requests);
    } else {
        assert(requests_made(plan_steps(), plan_start(requests), responses) =~= requests);
    }
}

/// A plan is given up at the first request that fails: it makes the requests up to
/// that one and no other, and ends with that failure.
pub proof fn law_plan_gives_up(requests: Seq<RequestView>, responses: Seq<ResponseView>)
    requires
        0 < responses.len() <= requests.len(),
        forall|i: int|
            0 <= i < responses.len() - 1 ==> settled(
                #[trigger] responses[i],
                subject_of(requests[i]),
            ) is Ok,
        settled(responses.last(), subject_of(requests[responses.len() - 1])) is Err,
    ensures
        ends_with(plan_steps(), plan_start(requests), responses),
        requests_made(plan_steps(), plan_start(requests), responses) == requests.take(
            responses.len() as int,
        ),
        result_after(plan_steps(), plan_start(requests), responses) == settled(
            responses.last(),
            subject_of(requests[responses.len() - 1]),
        ),
    decreases responses.len(),
{
    let state = PlanView { rest: requests.drop_first(), subject: subject_of(requests[0]) };
    let next = plan_step(state, responses[0]);
    assert(plan_steps()(state, responses[0]) == next);
    let made = requests_made(plan_steps(), plan_start(requests), responses);
    assert(result_after(plan_steps(), plan_start(requests), responses) == result_after(
        plan_steps(),
        next,
        responses.drop_first(),
    ));
    if responses.len() == 1 {
        assert(responses[0] == responses.last());
        assert(next is Finish);
        assert(ends_with(plan_steps(), next, responses.drop_first()));
        assert(requests_made(plan_steps(), next, responses.drop_first()).len() == 0);
        assert(made =~= requests.take(1));
    } else {
        assert(next == plan_start(requests.drop_first()));
        let later = responses.drop_first();
        assert forall|i: int| 0 <= i < later.len() - 1 implies settled(
            #[trigger] later[i],
            subject_of(requests.drop_first()[i]),
        ) is Ok by {
            assert(later[i] == responses[i + 1]);
        }
        assert(later.last() == responses.last());
        assert(requests.drop_first()[later.len() - 1] == requests[responses.len() - 1]);
        law_plan_gives_up(requests.drop_first(), later);
        assert(ends_with(plan_steps(), next, later));
        assert(made =~= requests.take(responses.len() as int));
    }
}

} // verus!
