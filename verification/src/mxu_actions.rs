//! The custom actions that MXU adds to the automation engine.
//!
//! The engine hands each action a JSON text. This module turns that text
//! into what the action has to do: how long to sleep, or which program to
//! launch and how. Sleeping and launching themselves happen outside.

use vstd::prelude::*;
use crate::json::{as_bool, as_text, as_u64, json_bool, json_document, json_member, json_text, json_u64, member, parse};
use crate::text::{blank, is_blank, split_whitespace, words};

verus! {

/// Name under which the sleep action is registered with the engine.
pub const MXU_SLEEP_ACTION: &'static str = "MXU_SLEEP_ACTION";

/// Name under which the launch action is registered with the engine.
pub const MXU_LAUNCH_ACTION: &'static str = "MXU_LAUNCH_ACTION";

/// Seconds to sleep when the parameter names no usable `sleep_time`.
pub const DEFAULT_SLEEP_SECONDS: u64 = 5;

/// Parameter text assumed when the engine passes none.
pub const EMPTY_PARAM: &'static str = "{}";

/// The built-in actions.
#[derive(Clone, Copy, Debug, PartialEq, Eq, Structural)]
pub enum MxuAction {
    /// Wait for a number of seconds.
    Sleep,
    /// Start an external program.
    Launch,
}

impl MxuAction {
    /// The registration name of each action.
    pub open spec fn spec_name(self) -> Seq<char> {
        match self {
            MxuAction::Sleep => MXU_SLEEP_ACTION@,
            MxuAction::Launch => MXU_LAUNCH_ACTION@,
        }
    }

    /// The name under which the action is registered with the engine.
    pub fn name(self) -> (name: &'static str)
        ensures
            name@ == self.spec_name(),
    {
        match self {
            MxuAction::Sleep => MXU_SLEEP_ACTION,
            MxuAction::Launch => MXU_LAUNCH_ACTION,
        }
    }
}

/// The sleep action.
pub fn get_mxu_sleep_action() -> (action: MxuAction)
    ensures
        action == MxuAction::Sleep,
{
    MxuAction::Sleep
}

/// The launch action.
pub fn get_mxu_launch_action() -> (action: MxuAction)
    ensures
        action == MxuAction::Launch,
{
    MxuAction::Launch
}

/// Every built-in action, in the order in which they are registered.
pub fn all_mxu_actions() -> (actions: Vec<MxuAction>)
    ensures
        actions@ == seq![MxuAction::Sleep, MxuAction::Launch],
{
    let mut actions: Vec<MxuAction> = Vec::new();
    actions.push(get_mxu_sleep_action());
    actions.push(get_mxu_launch_action());
    actions
}

/// The parameter text an action works on: the one given, or `{}`.
pub open spec fn param_text(param: Option<&str>) -> Seq<char> {
    match param {
        Some(text) => text@,
        None => EMPTY_PARAM@,
    }
}

/// The string member `key` of a document, if the document is an object that
/// holds a string there.
pub open spec fn member_text(doc: serde_json::Value, key: Seq<char>) -> Option<Seq<char>> {
    match json_member(doc, key) {
        Some(m) => json_text(m),
        None => None,
    }
}

/// The boolean member `key` of a document.
pub open spec fn member_bool(doc: serde_json::Value, key: Seq<char>) -> Option<bool> {
    match json_member(doc, key) {
        Some(m) => json_bool(m),
        None => None,
    }
}

/// The unsigned integer member `key` of a document.
pub open spec fn member_u64(doc: serde_json::Value, key: Seq<char>) -> Option<u64> {
    match json_member(doc, key) {
        Some(m) => json_u64(m),
        None => None,
    }
}

/// The time to sleep given what the parameter holds under `sleep_time`.
pub open spec fn sleep_seconds_for(sleep_time: Option<u64>) -> u64 {
    match sleep_time {
        Some(seconds) => seconds,
        None => DEFAULT_SLEEP_SECONDS,
    }
}

/// The time to sleep that a parameter text asks for: its `sleep_time` when
/// the text is a JSON object with an unsigned integer there, else the default.
pub open spec fn sleep_seconds_in(param: Seq<char>) -> u64 {
    match json_document(param) {
        Some(doc) => sleep_seconds_for(member_u64(doc, "sleep_time"@)),
        None => DEFAULT_SLEEP_SECONDS,
    }
}

/// The given `sleep_time`, or the default of five seconds.
pub fn sleep_seconds(sleep_time: Option<u64>) -> (seconds: u64)
    ensures
        seconds == sleep_seconds_for(sleep_time),
{
    match sleep_time {
        Some(seconds) => seconds,
        None => DEFAULT_SLEEP_SECONDS,
    }
}

/// Number of seconds the sleep action waits for the parameter it was given.
/// A missing parameter, a text that is not JSON and a document without a
/// usable `sleep_time` all give the default.
pub fn mxu_sleep_action(param: Option<&str>) -> (seconds: u64)
    ensures
        seconds == sleep_seconds_in(param_text(param)),
{
    let text = match param {
        Some(text) => text,
        None => EMPTY_PARAM,
    };
    match parse(text) {
        Ok(doc) => {
            let sleep_time = match member(&doc, "sleep_time") {
                Some(m) => as_u64(m),
                None => None,
            };
            sleep_seconds(sleep_time)
        },
        Err(_) => DEFAULT_SLEEP_SECONDS,
    }
}

/// How to start an external program.
#[derive(Clone, Debug)]
pub struct LaunchPlan {
    /// Path of the program.
    pub program: String,
    /// Its arguments, one per entry.
    pub args: Vec<String>,
    /// Directory to start it in. `None` stands for the directory of the
    /// program itself, where that exists.
    pub working_dir: Option<String>,
    /// Whether to wait until the program has ended.
    pub wait_for_exit: bool,
}

/// What a [`LaunchPlan`] says, as plain texts.
pub struct LaunchPlanView {
    pub program: Seq<char>,
    pub args: Seq<Seq<char>>,
    pub working_dir: Option<Seq<char>>,
    pub wait_for_exit: bool,
}

impl View for LaunchPlan {
    type V = LaunchPlanView;

    open spec fn view(&self) -> LaunchPlanView {
        LaunchPlanView {
            program: self.program@,
            args: self.args.deep_view(),
            working_dir: match self.working_dir {
                Some(dir) => Some(dir@),
                None => None,
            },
            wait_for_exit: self.wait_for_exit,
        }
    }
}

/// The view of a plan that may be absent.
pub open spec fn plan_view(plan: Option<LaunchPlan>) -> Option<LaunchPlanView> {
    match plan {
        Some(p) => Some(p@),
        None => None,
    }
}

/// The plan that a request makes. `args` is cut into words at whitespace;
/// without an explicit directory the program runs in its own.
pub open spec fn launch_plan_for(
    program: Seq<char>,
    args: Seq<char>,
    working_dir: Option<Seq<char>>,
    wait_for_exit: bool,
) -> LaunchPlanView {
    LaunchPlanView { program, args: words(args), working_dir, wait_for_exit }
}

/// The plan that the members of a launch parameter make: none without a
/// `program` that holds more than whitespace; no arguments without `args`;
/// no waiting without `wait_for_exit`.
pub open spec fn launch_request_for(
    program: Option<Seq<char>>,
    args: Option<Seq<char>>,
    wait_for_exit: Option<bool>,
) -> Option<LaunchPlanView> {
    match program {
        Some(p) => if is_blank(p) {
            None
        } else {
            Some(
                launch_plan_for(
                    p,
                    match args {
                        Some(a) => a,
                        None => Seq::empty(),
                    },
                    None,
                    match wait_for_exit {
                        Some(w) => w,
                        None => false,
                    },
                ),
            )
        },
        None => None,
    }
}

/// The plan that a launch parameter text asks for: none where the text is
/// not JSON, else what its members `program`, `args` and `wait_for_exit` make.
pub open spec fn launch_request_in(param: Seq<char>) -> Option<LaunchPlanView> {
    match json_document(param) {
        Some(doc) => launch_request_for(
            member_text(doc, "program"@),
            member_text(doc, "args"@),
            member_bool(doc, "wait_for_exit"@),
        ),
        None => None,
    }
}

/// Builds the plan for starting `program` with the words of `args`.
pub fn plan_launch(program: &str, args: &str, working_dir: Option<String>, wait_for_exit: bool) -> (plan:
    LaunchPlan)
    ensures
        plan@ == launch_plan_for(
            program@,
            args@,
            match working_dir {
                Some(dir) => Some(dir@),
                None => None,
            },
            wait_for_exit,
        ),
{
    LaunchPlan {
        program: program.to_owned(),
        args: split_whitespace(args),
        working_dir,
        wait_for_exit,
    }
}

/// Builds the plan from the members of a launch parameter.
pub fn launch_request(program: Option<&str>, args: Option<&str>, wait_for_exit: Option<bool>) -> (plan:
    Option<LaunchPlan>)
    ensures
        plan_view(plan) == launch_request_for(
            match program {
                Some(p) => Some(p@),
                None => None,
            },
            match args {
                Some(a) => Some(a@),
                None => None,
            },
            wait_for_exit,
        ),
{
    match program {
        Some(p) => {
            if blank(p) {
                None
            } else {
                let a = match args {
                    Some(a) => a,
                    None => "",
                };
                let w = match wait_for_exit {
                    Some(w) => w,
                    None => false,
                };
                proof {
                    reveal_strlit("");
                    assert(""@ == Seq::<char>::empty());
                }
                Some(plan_launch(p, a, None, w))
            }
        },
        None => None,
    }
}

/// What the launch action starts for the parameter it was given, or `None`
/// when the parameter does not name a program.
pub fn mxu_launch_action(param: Option<&str>) -> (plan: Option<LaunchPlan>)
    ensures
        plan_view(plan) == launch_request_in(param_text(param)),
{
    let text = match param {
        Some(text) => text,
        None => EMPTY_PARAM,
    };
    match parse(text) {
        Ok(doc) => {
            let program = match member(&doc, "program") {
                Some(m) => as_text(m),
                None => None,
            };
            let args = match member(&doc, "args") {
                Some(m) => as_text(m),
                None => None,
            };
            let wait_for_exit = match member(&doc, "wait_for_exit") {
                Some(m) => as_bool(m),
                None => None,
            };
            launch_request(program, args, wait_for_exit)
        },
        Err(_) => None,
    }
}

} // verus!
