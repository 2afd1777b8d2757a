use dirtcrunch::container::{Container, Phase};
use dirtcrunch::errors::OpError;
use dirtcrunch::facade::{
    command_for, mounts_for, sought_of, OpAction, OpEvent, OpKind, OpPhase, Operation, Outcome,
};
use dirtcrunch::scanner::MessageKind;
use dirtcrunch::staging::staging_plan;
use dirtcrunch::{AirbyteConnectionStatus, ConnectionStatus};

fn unit_for(image: &str, tag: &str) -> Container {
    let mut c = Container::new();
    c.image_name(image);
    c.image_tag(tag);
    c
}

/// Drives an operation to completion, answering each pending action with a
/// scripted engine response, and counts how often a unit was created and
/// torn down.
fn drive(op: &mut Operation, mut lines: Vec<String>) -> (u32, u32) {
    let mut creates: u32 = 0;
    let mut teardowns: u32 = 0;
    lines.reverse();
    loop {
        match op.pending_action() {
            OpAction::StageInputs => op.step(OpEvent::StagingDone),
            OpAction::PullImage => op.step(OpEvent::PullDone),
            OpAction::CreateUnit => {
                creates += 1;
                op.step(OpEvent::CreateDone { unit_id: "unit-1".to_string() });
            }
            OpAction::StartUnit => op.step(OpEvent::StartDone),
            OpAction::ReadLine => match lines.pop() {
                Some(line) => op.step(OpEvent::LineRead { line }),
                None => op.step(OpEvent::StreamEnded),
            },
            OpAction::Teardown => {
                teardowns += 1;
                op.step(OpEvent::TeardownDone);
            }
            OpAction::Finish => return (creates, teardowns),
        }
    }
}

#[test]
fn spec_operation_scans_and_tears_down_once() {
    let mut op = Operation::new(OpKind::Spec, unit_for("airbyte/source-file", "0.2.6"));
    let lines = vec![
        "starting connector".to_string(),
        "{\"type\": \"LOG\", \"log\":{}}".to_string(),
        "{\"type\": \"SPEC\", \"spec\":{}}".to_string(),
    ];
    let (creates, teardowns) = drive(&mut op, lines);
    assert_eq!(creates, 1);
    assert_eq!(teardowns, 1);
    assert_eq!(op.unit().created_count(), 1);
    assert_eq!(op.unit().teardown_count(), 1);
    let (unit, outcome) = op.finish();
    assert_eq!(unit.phase(), Phase::Removed);
    match outcome {
        Some(Outcome::Payload { payload }) => {
            assert_eq!(payload, "{\"type\": \"SPEC\", \"spec\":{}}");
        }
        _ => panic!("expected a payload"),
    }
}

#[test]
fn teardown_still_happens_when_scanning_fails() {
    let mut op = Operation::new(OpKind::Spec, unit_for("airbyte/source-file", "0.2.6"));
    let lines = vec!["no marker anywhere".to_string(), "{\"type\":\"LOG\"}".to_string()];
    let (creates, teardowns) = drive(&mut op, lines);
    assert_eq!(creates, 1);
    assert_eq!(teardowns, 1);
    let (unit, outcome) = op.finish();
    assert_eq!(unit.phase(), Phase::Removed);
    match outcome {
        Some(Outcome::Failed { error }) => {
            assert_eq!(error, OpError::MessageNotFoundError { kind: MessageKind::Spec });
        }
        _ => panic!("expected the scan failure"),
    }
}

#[test]
fn teardown_still_happens_when_the_deadline_expires() {
    let mut op = Operation::new(OpKind::Spec, unit_for("airbyte/source-file", "0.2.6"));
    op.step(OpEvent::PullDone);
    op.step(OpEvent::CreateDone { unit_id: "unit-5".to_string() });
    op.step(OpEvent::StartDone);
    assert_eq!(op.pending_action(), OpAction::ReadLine);
    op.step(OpEvent::LineRead { line: "still waiting".to_string() });
    op.step(OpEvent::DeadlineExpired);
    assert_eq!(op.pending_action(), OpAction::Teardown);
    op.step(OpEvent::TeardownDone);
    assert_eq!(op.unit().created_count(), 1);
    assert_eq!(op.unit().teardown_count(), 1);
    match op.finish().1 {
        Some(Outcome::Failed { error }) => assert_eq!(error, OpError::DeadlineExceededError),
        _ => panic!("expected the deadline failure"),
    }
}

#[test]
fn nothing_to_tear_down_when_creation_fails() {
    let mut op = Operation::new(OpKind::Spec, unit_for("airbyte/source-file", "0.2.6"));
    assert_eq!(op.pending_action(), OpAction::PullImage);
    op.step(OpEvent::PullDone);
    assert_eq!(op.pending_action(), OpAction::CreateUnit);
    op.step(OpEvent::CreateFailed);
    assert_eq!(op.pending_action(), OpAction::Finish);
    assert_eq!(op.unit().created_count(), 0);
    assert_eq!(op.unit().teardown_count(), 0);
    match op.finish().1 {
        Some(Outcome::Failed { error }) => assert_eq!(error, OpError::CreateError),
        _ => panic!("expected the creation failure"),
    }
}

#[test]
fn teardown_happens_when_start_fails() {
    let mut op = Operation::new(OpKind::Discover, unit_for("airbyte/source-asana", "0.1.3"));
    assert_eq!(op.pending_action(), OpAction::StageInputs);
    op.step(OpEvent::StagingDone);
    op.step(OpEvent::PullDone);
    op.step(OpEvent::CreateDone { unit_id: "unit-9".to_string() });
    assert_eq!(op.pending_action(), OpAction::StartUnit);
    op.step(OpEvent::StartFailed);
    assert_eq!(op.pending_action(), OpAction::Teardown);
    op.step(OpEvent::TeardownDone);
    assert_eq!(op.pending_action(), OpAction::Finish);
    assert_eq!(op.unit().created_count(), 1);
    assert_eq!(op.unit().teardown_count(), 1);
}

#[test]
fn pull_failure_finishes_without_a_unit() {
    let mut failing = Operation::new(OpKind::Spec, unit_for("airbyte/missing", "latest"));
    failing.step(OpEvent::PullFailed);
    assert_eq!(failing.phase(), OpPhase::Done);
    match failing.finish().1 {
        Some(Outcome::Failed { error }) => assert_eq!(error, OpError::ImagePullError),
        _ => panic!("expected the pull failure"),
    }
}

#[test]
fn staging_failure_aborts_before_any_engine_work() {
    let mut op = Operation::new(OpKind::Discover, unit_for("airbyte/source-file", "0.2.6"));
    op.step(OpEvent::StagingFailed);
    assert_eq!(op.phase(), OpPhase::Done);
    assert_eq!(op.unit().created_count(), 0);
    match op.finish().1 {
        Some(Outcome::Failed { error }) => assert_eq!(error, OpError::StagingIOError),
        _ => panic!("expected the staging failure"),
    }
}

#[test]
fn read_hands_the_live_stream_to_the_caller() {
    let mut op = Operation::new(OpKind::Read, unit_for("airbyte/source-file", "0.2.6"));
    op.step(OpEvent::StagingDone);
    op.step(OpEvent::PullDone);
    op.step(OpEvent::CreateDone { unit_id: "unit-7".to_string() });
    op.step(OpEvent::StartDone);
    assert_eq!(op.pending_action(), OpAction::Finish);
    assert_eq!(op.unit().created_count(), 1);
    assert_eq!(op.unit().teardown_count(), 0);
    let (unit, outcome) = op.finish();
    assert_eq!(unit.phase(), Phase::Started);
    assert!(matches!(outcome, Some(Outcome::StreamReady)));
    assert_eq!(unit.unit_id().clone(), Some("unit-7".to_string()));
}

#[test]
fn operations_seek_their_message_kind() {
    assert_eq!(sought_of(OpKind::Spec), MessageKind::Spec);
    assert_eq!(sought_of(OpKind::Discover), MessageKind::Catalog);
    assert_eq!(sought_of(OpKind::Read), MessageKind::Record);
}

#[test]
fn commands_follow_the_protocol() {
    assert_eq!(command_for(OpKind::Spec), vec!["spec".to_string()]);
    assert_eq!(
        command_for(OpKind::Discover),
        vec!["discover".to_string(), "--config".to_string(), "/app/config".to_string()]
    );
    assert_eq!(
        command_for(OpKind::Read),
        vec![
            "read".to_string(),
            "--config".to_string(),
            "/app/config".to_string(),
            "--catalog".to_string(),
            "/app/catalog".to_string(),
        ]
    );
}

#[test]
fn staging_plan_lays_out_unique_directories() {
    let plan = staging_plan("/work", "unit-3");
    assert_eq!(plan.dir, "/work/app-unit-3");
    assert_eq!(plan.config_path, "/work/app-unit-3/config");
    assert_eq!(plan.catalog_path, "/work/app-unit-3/catalog");
    assert_eq!(plan.mount_spec, "/work/app-unit-3:/app/");

    let other = staging_plan("/work", "unit-4");
    assert_ne!(plan.dir, other.dir);
}

#[test]
fn mounts_bind_the_staging_directory() {
    let plan = staging_plan("/work", "u");
    assert_eq!(mounts_for(OpKind::Spec, &plan.mount_spec), Vec::<String>::new());
    assert_eq!(mounts_for(OpKind::Discover, &plan.mount_spec), vec!["/work/app-u:/app/".to_string()]);
    assert_eq!(mounts_for(OpKind::Read, &plan.mount_spec), vec!["/work/app-u:/app/".to_string()]);
}

#[test]
fn container_records_its_configuration() {
    let c = unit_for("airbyte/source-postgres", "latest");
    assert_eq!(c.image(), "airbyte/source-postgres");
    assert_eq!(c.tag(), "latest");
    assert_eq!(c.phase(), Phase::Empty);
    assert!(c.unit_id().is_none());
}

#[test]
fn connection_status_reports_success() {
    let ok = AirbyteConnectionStatus::new(ConnectionStatus::Succeeded, "ready".to_string());
    assert!(ok.succeeded());
    assert_eq!(ok.message, "ready");
    let bad = AirbyteConnectionStatus::new(ConnectionStatus::Failed, "no route".to_string());
    assert!(!bad.succeeded());
}
