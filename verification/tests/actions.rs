use mxu_core::mxu_actions::{
    all_mxu_actions, get_mxu_launch_action, get_mxu_sleep_action, launch_request,
    mxu_launch_action, mxu_sleep_action, plan_launch, sleep_seconds, MxuAction,
    DEFAULT_SLEEP_SECONDS, MXU_LAUNCH_ACTION, MXU_SLEEP_ACTION,
};

#[test]
fn action_names() {
    assert_eq!(MXU_SLEEP_ACTION, "MXU_SLEEP_ACTION");
    assert_eq!(MXU_LAUNCH_ACTION, "MXU_LAUNCH_ACTION");
    assert_eq!(get_mxu_sleep_action(), MxuAction::Sleep);
    assert_eq!(get_mxu_launch_action(), MxuAction::Launch);
    assert_eq!(get_mxu_sleep_action().name(), "MXU_SLEEP_ACTION");
    assert_eq!(get_mxu_launch_action().name(), "MXU_LAUNCH_ACTION");
}

#[test]
fn actions_are_registered_sleep_first() {
    assert_eq!(all_mxu_actions(), vec![MxuAction::Sleep, MxuAction::Launch]);
}

#[test]
fn sleep_seconds_defaults_to_five() {
    assert_eq!(DEFAULT_SLEEP_SECONDS, 5);
    assert_eq!(sleep_seconds(None), 5);
    assert_eq!(sleep_seconds(Some(0)), 0);
    assert_eq!(sleep_seconds(Some(90)), 90);
}

#[test]
fn sleep_action_reads_sleep_time() {
    assert_eq!(mxu_sleep_action(Some("{\"sleep_time\": 3}")), 3);
    assert_eq!(mxu_sleep_action(Some("{\"sleep_time\": 0}")), 0);
    assert_eq!(mxu_sleep_action(Some("{\"other\": 1, \"sleep_time\": 120}")), 120);
}

#[test]
fn sleep_action_falls_back_to_default() {
    assert_eq!(mxu_sleep_action(None), 5);
    assert_eq!(mxu_sleep_action(Some("{}")), 5);
    assert_eq!(mxu_sleep_action(Some("")), 5);
    assert_eq!(mxu_sleep_action(Some("not json")), 5);
    assert_eq!(mxu_sleep_action(Some("{\"sleep_time\": -2}")), 5);
    assert_eq!(mxu_sleep_action(Some("{\"sleep_time\": 2.5}")), 5);
    assert_eq!(mxu_sleep_action(Some("{\"sleep_time\": \"3\"}")), 5);
    assert_eq!(mxu_sleep_action(Some("[3]")), 5);
    assert_eq!(mxu_sleep_action(Some("7")), 5);
}

#[test]
fn launch_action_builds_the_plan() {
    let plan = mxu_launch_action(Some(
        "{\"program\": \"C:/tools/run.exe\", \"args\": \" -a  -b c \", \"wait_for_exit\": true}",
    ))
    .unwrap();
    assert_eq!(plan.program, "C:/tools/run.exe");
    assert_eq!(plan.args, vec!["-a", "-b", "c"]);
    assert_eq!(plan.working_dir, None);
    assert!(plan.wait_for_exit);
}

#[test]
fn launch_action_defaults() {
    let plan = mxu_launch_action(Some("{\"program\": \"run\"}")).unwrap();
    assert_eq!(plan.program, "run");
    assert!(plan.args.is_empty());
    assert!(!plan.wait_for_exit);
    let plan = mxu_launch_action(Some(
        "{\"program\": \" run \", \"args\": 5, \"wait_for_exit\": \"yes\"}",
    ))
    .unwrap();
    assert_eq!(plan.program, " run ");
    assert!(plan.args.is_empty());
    assert!(!plan.wait_for_exit);
}

#[test]
fn launch_action_needs_a_program() {
    assert!(mxu_launch_action(None).is_none());
    assert!(mxu_launch_action(Some("{}")).is_none());
    assert!(mxu_launch_action(Some("{\"program\": \"\"}")).is_none());
    assert!(mxu_launch_action(Some("{\"program\": \"  \\t\"}")).is_none());
    assert!(mxu_launch_action(Some("{\"program\": 5}")).is_none());
    assert!(mxu_launch_action(Some("{\"program\": \"run\"")).is_none());
    assert!(mxu_launch_action(Some("\"run\"")).is_none());
}

#[test]
fn launch_request_from_members() {
    assert!(launch_request(None, Some("-a"), Some(true)).is_none());
    assert!(launch_request(Some(" "), None, None).is_none());
    let plan = launch_request(Some("p"), Some("x y"), None).unwrap();
    assert_eq!(plan.program, "p");
    assert_eq!(plan.args, vec!["x", "y"]);
    assert!(!plan.wait_for_exit);
    assert_eq!(plan.working_dir, None);
}

#[test]
fn plan_launch_keeps_the_directory() {
    let plan = plan_launch("p", "", Some("d".to_string()), true);
    assert_eq!(plan.program, "p");
    assert!(plan.args.is_empty());
    assert_eq!(plan.working_dir, Some("d".to_string()));
    assert!(plan.wait_for_exit);
}
