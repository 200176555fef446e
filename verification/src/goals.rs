//! Goals.
use vstd::prelude::*;
use crate::error::CREATED;
use crate::model::Goal;
use crate::steps::{answers, Step};
use crate::text::{uuid_string, uuid_text};
use crate::util::{is_random_uuid, new_uuid};

verus! {

/// The form that creates a goal.
pub struct CreateGoalForm {
    pub title: String,
    pub description: String,
}

/// The goal that `form` creates for the user `user_id`, under a fresh
/// random identifier.
pub fn new_goal(user_id: u128, form: CreateGoalForm) -> (g: Goal)
    ensures
        is_random_uuid(g.id),
        g.user_id == user_id,
        g.title@ == form.title@,
        g.description@ == form.description@,
{
    Goal { id: new_uuid(), user_id, title: form.title, description: form.description }
}

/// The answer to a created goal: 201 and the goal's hyphenated UUID.
pub fn created_response(goal: &Goal) -> (r: (u16, String))
    ensures
        r.0 == CREATED,
        r.1@ == uuid_text(goal.id),
{
    (CREATED, uuid_string(goal.id))
}

/// The steps of creating a goal from `form` for the user `user_id`: the
/// new goal is inserted, and the answer is 201 with its hyphenated UUID.
pub fn create_goal_steps(user_id: u128, form: CreateGoalForm) -> (s: Vec<Step>)
    ensures
        s@.len() == 2,
        s@[0] matches Step::InsertGoal(g) && {
            &&& is_random_uuid(g.id)
            &&& g.user_id == user_id
            &&& g.title@ == form.title@
            &&& g.description@ == form.description@
            &&& answers(s@[1], CREATED, uuid_text(g.id))
        },
{
    let goal = new_goal(user_id, form);
    let (code, body) = created_response(&goal);
    let mut s: Vec<Step> = Vec::new();
    s.push(Step::InsertGoal(goal));
    s.push(Step::Answer(code, body));
    s
}

} // verus!
