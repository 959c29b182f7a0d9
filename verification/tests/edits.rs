//! The editing commands: requests, commits, recovery, and their reports.

use serde_json::Value;
use srcmv::commit::{
    file_mode, render_commit, snapshot_requirements, validate_plan_policy, Commit, CommitAnswer,
    CommitOutcome, CommitStep, Endpoint, Operation, OutputChange, PlanSummary, PlannedOutput,
    Precondition, RequiredPathState, SnapshotFile, SnapshotRequirement, Specification,
};
use srcmv::digest::Sha256Digest;
use srcmv::edit_command::{
    diagnostic_context, enforce_response_bytes, execute_recovery, open_request_error,
    reject_workspace_for_target_independent, validate_inspect_paths,
    validate_transaction_id_argument, RecoverCommand, RecoveryAnswer, RecoveryEntry,
    RecoveryOutcome, RecoveryStep,
};
use srcmv::edit_report::{
    error_status, filesystem_error, redact_path, transaction_busy_error, CoreError, ErrorCode,
    ErrorDto, FsError,
};
use srcmv::json::{Json, JsonNumber};
use srcmv::text_map::TextMap;
use srcmv::wire::{WarningCode, WarningDto, MAX_RESPONSE_BYTES};

/// The library's value of a parsed JSON value.
fn converted(value: &Value) -> Json {
    match value {
        Value::Null => Json::Null,
        Value::Bool(flag) => Json::Bool(*flag),
        Value::Number(number) => Json::Number(match (number.as_u64(), number.as_i64()) {
            (Some(unsigned), _) => JsonNumber::Unsigned(unsigned),
            (None, Some(signed)) => JsonNumber::Negative(signed),
            (None, None) => JsonNumber::Real(number.to_string()),
        }),
        Value::String(text) => Json::String(text.clone()),
        Value::Array(items) => Json::Array(items.iter().map(converted).collect()),
        Value::Object(members) => Json::Object(
            members.iter().map(|(name, member)| (name.clone(), converted(member))).collect(),
        ),
    }
}

/// The library's value of a JSON text.
fn json(text: &str) -> Json {
    let value: Value = serde_json::from_str(text).expect("test JSON should parse");
    converted(&value)
}

fn text(value: &str) -> Json {
    Json::String(value.to_owned())
}

fn number(value: u64) -> Json {
    Json::Number(JsonNumber::Unsigned(value))
}

/// The context member of a report.
fn context<'a>(report: &'a ErrorDto, name: &str) -> &'a Json {
    report
        .context()
        .iter()
        .find(|(key, _)| key == name)
        .map(|(_, value)| value)
        .unwrap_or_else(|| panic!("missing context `{name}`"))
}

#[test]
fn commit_should_require_one_expected_plan_policy() {
    let report = validate_plan_policy(true, false, false)
        .expect_err("a commit must name its expected-plan policy");

    assert_eq!(error_status(report.exit_code(), true), 3);
    assert_eq!(
        report.to_json().get("code"),
        Some(&text("EXPECTED_PLAN_REQUIRED"))
    );

    assert!(validate_plan_policy(true, true, false).is_ok());
    assert!(validate_plan_policy(true, false, true).is_ok());
    assert!(validate_plan_policy(false, false, false).is_ok());
}

#[test]
fn human_errors_should_escape_terminal_control_characters() {
    let report = ErrorDto::new(
        ErrorCode::InvalidCli,
        "unsafe\u{202e}\nmessage",
        Vec::new(),
    );

    let status = error_status(report.exit_code(), true);

    assert_eq!(status, 2);
    assert_eq!(
        report.line().as_bytes(),
        b"srcmv: INVALID_CLI: unsafe\\u{202e}\\u{a}message\n"
    );
    assert_eq!(error_status(report.exit_code(), false), 8);
}

#[test]
fn phase9_serialized_response_limit_covers_below_at_and_above_boundaries() {
    assert!(enforce_response_bytes(MAX_RESPONSE_BYTES - 1).is_ok());
    assert!(enforce_response_bytes(MAX_RESPONSE_BYTES).is_ok());
    let error = enforce_response_bytes(MAX_RESPONSE_BYTES + 1)
        .expect_err("above-limit response should be rejected");
    assert_eq!(error.code(), ErrorCode::ResourceLimitExceeded);
}

#[test]
fn error_codes_are_spelled_once_each() {
    let mut spellings =
        ErrorCode::all().iter().map(|code| code.as_str()).collect::<Vec<_>>();
    let count = spellings.len();
    spellings.sort_unstable();
    spellings.dedup();
    assert_eq!(spellings.len(), count);
    assert_eq!(count, 29);
    for code in ErrorCode::all() {
        assert_eq!(code.retryable(), code == ErrorCode::TransactionBusy);
    }
}

#[test]
fn inspected_paths_are_bounded_and_hold_no_nul() {
    assert!(validate_inspect_paths(&vec!["src/lib.rs".to_owned()]).is_ok());
    let many = vec!["a".to_owned(); 1_001];
    let error = validate_inspect_paths(&many).expect_err("too many paths");
    assert_eq!(context(&error, "resource"), &text("operation_paths"));
    assert_eq!(context(&error, "actual"), &number(1_001));
    assert!(validate_inspect_paths(&vec!["a".to_owned(); 1_000]).is_ok());

    let long = "x".repeat(4_097);
    let error = validate_inspect_paths(&vec!["a".to_owned(), long]).expect_err("too long");
    assert_eq!(context(&error, "resource"), &text("path_bytes"));
    assert!(validate_inspect_paths(&vec!["x".repeat(4_096)]).is_ok());

    let error = validate_inspect_paths(&vec!["a\0b".to_owned()]).expect_err("a NUL");
    assert_eq!(context(&error, "reason"), &text("path_contains_nul"));
}

#[test]
fn target_independent_commands_take_no_workspace() {
    assert!(reject_workspace_for_target_independent(false).is_ok());
    let error = reject_workspace_for_target_independent(true).expect_err("a workspace");
    assert_eq!(error.code(), ErrorCode::InvalidCli);
    assert_eq!(error.exit_code(), 2);
}

#[test]
fn absolute_paths_are_not_repeated() {
    assert_eq!(redact_path("relative/file"), "relative/file");
    assert_eq!(redact_path("/home/someone/file"), "<redacted absolute path>");
    let error = open_request_error("not_found", "/secret/request.json");
    assert_eq!(context(&error, "path"), &text("<redacted absolute path>"));
    let error = filesystem_error(&FsError::InvalidPath {
        path: "/etc/passwd".to_owned(),
        reason: "absolute".to_owned(),
    });
    assert_eq!(context(&error, "path"), &text("<redacted absolute path>"));
    assert_eq!(context(&error, "reason"), &text("absolute"));
}

#[test]
fn workspace_refusals_have_their_own_codes() {
    let cases = [
        (FsError::UnsupportedPlatform, ErrorCode::UnsupportedPlatform),
        (FsError::WorkspaceRootNotDirectory, ErrorCode::InvalidRequest),
        (FsError::SymlinkNotAllowed { path: "a".to_owned() }, ErrorCode::SymlinkNotAllowed),
        (
            FsError::PreconditionFailed {
                path: "a".to_owned(),
                expected: Some(Sha256Digest([1; 32])),
                actual: None,
            },
            ErrorCode::PreconditionFailed,
        ),
        (
            FsError::FileChanged { path: "a".to_owned(), attempts: 3 },
            ErrorCode::FileChanged,
        ),
        (FsError::TransactionBusy, ErrorCode::TransactionBusy),
        (FsError::CrossDeviceTransaction, ErrorCode::CrossDeviceTransaction),
        (
            FsError::LegacyControlState { name: ".old".to_owned() },
            ErrorCode::ControlDirectoryInvalid,
        ),
        (
            FsError::Core(CoreError::HardLinkNotSupported {
                path: "a".to_owned(),
                link_count: 2,
            }),
            ErrorCode::HardLinkNotSupported,
        ),
        (FsError::Unrecognized, ErrorCode::InternalError),
    ];
    for (refusal, code) in cases {
        assert_eq!(filesystem_error(&refusal).code(), code);
    }
    let busy = transaction_busy_error();
    assert_eq!(busy.message(), filesystem_error(&FsError::TransactionBusy).message());
    assert_eq!(context(&busy, "safe_next_action"), &text("wait_then_retry"));
    let changed = filesystem_error(&FsError::FileChanged { path: "a".to_owned(), attempts: 3 });
    assert_eq!(context(&changed, "attempts"), &number(3));
    let limit = filesystem_error(&FsError::ResourceLimitExceeded {
        resource: "file_bytes".to_owned(),
        actual: 9,
        limit: 8,
    });
    assert_eq!(limit.to_json().get("context"), Some(&json(
        r#"{"actual":9,"limit":8,"resource":"file_bytes"}"#
    )));
}

fn entry(id: &str, kind: &str) -> RecoveryEntry {
    RecoveryEntry {
        transaction_id: id.to_owned(),
        kind: kind.to_owned(),
        visibility: "unchanged".to_owned(),
        actions: vec!["rollback".to_owned(), "complete".to_owned()],
    }
}

#[test]
fn unfinished_transactions_stop_read_only_commands() {
    let warnings = diagnostic_context(&None).expect("no lock is a warning");
    assert_eq!(warnings.len(), 1);
    assert_eq!(
        warnings[0].to_json().get("code"),
        Some(&text("OBSERVATION_MAY_BE_STALE"))
    );
    let quiet = diagnostic_context(&Some(vec![entry("a", "cleanup_only")]));
    assert_eq!(quiet.map(|warnings| warnings.len()), Ok(0));
    assert_eq!(
        diagnostic_context(&Some(vec![
            entry("a", "cleanup_only"),
            entry("b", "rollback_required"),
        ])),
        Err(FsError::TransactionRecoveryRequired { transaction_ids: vec!["b".to_owned()] })
    );
}

const ID: &str = "0123456789abcdef0123456789abcdef";

fn recover(id: Option<&str>) -> RecoverCommand {
    RecoverCommand {
        id: id.map(str::to_owned),
        list: false,
        status: false,
        rollback: false,
        json: false,
    }
}

#[test]
fn malformed_transaction_identifiers_are_refused_before_the_workspace_is_opened() {
    assert!(validate_transaction_id_argument(ID).is_ok());
    let upper = ID.to_uppercase();
    for malformed in ["", "0123", upper.as_str(), "0123456789abcdef0123456789abcdeg"] {
        assert!(validate_transaction_id_argument(malformed).is_err());
        let RecoveryStep::Refuse(report) =
            execute_recovery(&recover(Some(malformed)), RecoveryAnswer::Start)
        else {
            panic!("`{malformed}` must be refused");
        };
        assert_eq!(context(&report, "reason"), &text("invalid_transaction_id"));
    }
    assert_eq!(
        execute_recovery(&recover(Some(ID)), RecoveryAnswer::Start),
        RecoveryStep::Open
    );
}

#[test]
fn recovery_lists_inspects_and_acts() {
    let list = RecoverCommand { list: true, ..recover(None) };
    assert_eq!(
        execute_recovery(&list, RecoveryAnswer::Opened(Ok(()))),
        RecoveryStep::List
    );
    assert_eq!(
        execute_recovery(
            &list,
            RecoveryAnswer::Listed(Ok(vec![entry(ID, "rollback_required")]))
        ),
        RecoveryStep::Print(format!(
            "{ID} rollback_required visibility=unchanged [rollback,complete]\n"
        ))
    );
    let status = RecoverCommand { status: true, ..recover(Some(ID)) };
    assert_eq!(
        execute_recovery(&status, RecoveryAnswer::Opened(Ok(()))),
        RecoveryStep::Inspect(ID.to_owned())
    );
    let rollback = RecoverCommand { rollback: true, ..recover(Some(ID)) };
    assert_eq!(
        execute_recovery(&rollback, RecoveryAnswer::Opened(Ok(()))),
        RecoveryStep::RollBack(ID.to_owned())
    );
    assert_eq!(
        execute_recovery(&recover(Some(ID)), RecoveryAnswer::Opened(Ok(()))),
        RecoveryStep::Complete(ID.to_owned())
    );
    assert_eq!(
        execute_recovery(
            &recover(Some(ID)),
            RecoveryAnswer::Completed(Ok(RecoveryOutcome {
                transaction_id: ID.to_owned(),
                state: "committed".to_owned(),
            }))
        ),
        RecoveryStep::Print(format!("{ID} committed\n"))
    );
    let RecoveryStep::Refuse(report) =
        execute_recovery(&recover(None), RecoveryAnswer::Opened(Ok(())))
    else {
        panic!("an action needs a transaction");
    };
    assert_eq!(report.message(), "recovery requires a transaction ID");
    let RecoveryStep::Refuse(report) = execute_recovery(
        &recover(Some(ID)),
        RecoveryAnswer::Completed(Err(FsError::TransactionBusy)),
    ) else {
        panic!("a held lock is a refusal");
    };
    assert_eq!(report.code(), ErrorCode::TransactionBusy);
}

fn plan(digest: u8, changed_targets: u64) -> PlanSummary {
    PlanSummary {
        digest: Sha256Digest([digest; 32]),
        operations: vec![Json::String("copy".to_owned()), Json::String("move".to_owned())],
        changed_targets,
        outputs: vec![
            PlannedOutput {
                path: "new.rs".to_owned(),
                change: OutputChange::Created,
                original_digest: None,
                resulting_length: 4,
                resulting_digest: Sha256Digest([4; 32]),
            },
            PlannedOutput {
                path: "old.rs".to_owned(),
                change: OutputChange::Modified,
                original_digest: Some(Sha256Digest([5; 32])),
                resulting_length: 6,
                resulting_digest: Sha256Digest([6; 32]),
            },
            PlannedOutput {
                path: "same.rs".to_owned(),
                change: OutputChange::Unchanged,
                original_digest: Some(Sha256Digest([7; 32])),
                resulting_length: 8,
                resulting_digest: Sha256Digest([7; 32]),
            },
        ],
        files: vec![
            SnapshotFile { path: "old.rs".to_owned(), byte_length: 10 },
            SnapshotFile { path: "same.rs".to_owned(), byte_length: 8 },
        ],
    }
}

fn commit(expected: Option<u8>) -> Commit {
    Commit::new(
        expected.map(|byte| Sha256Digest([byte; 32])),
        0o022,
        Sha256Digest([9; 32]),
    )
}

#[test]
fn commits_lock_gate_and_plan_again() {
    let start = commit(Some(1));
    assert_eq!(start.pending(), CommitStep::Plan);
    let (locking, step) = start.advance(CommitAnswer::Planned(Ok(plan(1, 2))));
    assert_eq!(step, CommitStep::Lock);
    let (gating, step) = locking.advance(CommitAnswer::Locked(Ok(())));
    assert_eq!(step, CommitStep::Gate);
    let (replanning, step) = gating.advance(CommitAnswer::Gated(Ok(())));
    assert_eq!(step, CommitStep::Plan);
    let (committing, step) = replanning.advance(CommitAnswer::Planned(Ok(plan(1, 2))));
    assert_eq!(step, CommitStep::Commit(0o644));
    let (finished, step) = committing.advance(CommitAnswer::Committed(Ok(CommitOutcome {
        transaction_id: ID.to_owned(),
        preserved_permission_modes: TextMap::from_entries(vec![
            ("old.rs".to_owned(), 0o600),
            ("moved.rs".to_owned(), 0o640),
        ]),
    })));
    let CommitStep::Report(report) = step else {
        panic!("a commit ends with a report");
    };
    assert_eq!(report.files_changed, ["new.rs", "old.rs"]);
    assert_eq!(report.operations, plan(1, 2).operations);
    assert_eq!(report.transaction_id.as_deref(), Some(ID));
    assert_eq!(
        report.preserved_permission_modes.entries(),
        &vec![("moved.rs".to_owned(), 0o640), ("old.rs".to_owned(), 0o600)]
    );
    assert_eq!(report.warnings.len(), 1);
    assert_eq!(report.outputs[0].before_length, None);
    assert_eq!(report.outputs[1].before_length, Some(10));
    assert_eq!(finished.pending(), CommitStep::Done);
    assert_eq!(
        render_commit(&report, "committed"),
        format!(
            "plan {}\ntransaction {ID}\nstate committed\n",
            Sha256Digest([1; 32]).to_prefixed_hex()
        )
    );
}

#[test]
fn plans_that_change_nothing_take_no_lock() {
    let (diagnosing, step) = commit(None).advance(CommitAnswer::Planned(Ok(plan(1, 0))));
    assert_eq!(step, CommitStep::Diagnose);
    let (_, step) = diagnosing.advance(CommitAnswer::Diagnosed(Ok(Vec::new())));
    let CommitStep::Report(report) = step else {
        panic!("nothing to commit is a report");
    };
    assert_eq!(report.transaction_id, None);
    assert!(render_commit(&report, "no_op").contains("transaction none (no-op)\n"));
}

#[test]
fn unexpected_and_changed_plans_are_refused() {
    let (_, step) = commit(Some(2)).advance(CommitAnswer::Planned(Ok(plan(1, 2))));
    let CommitStep::Refuse(report) = step else {
        panic!("another plan than expected is refused");
    };
    assert_eq!(report.code(), ErrorCode::ExpectedPlanMismatch);

    let (locking, _) = commit(None).advance(CommitAnswer::Planned(Ok(plan(1, 2))));
    let (gating, _) = locking.advance(CommitAnswer::Locked(Ok(())));
    let (replanning, _) = gating.advance(CommitAnswer::Gated(Ok(())));
    let (_, step) = replanning.advance(CommitAnswer::Planned(Ok(plan(3, 2))));
    let CommitStep::Refuse(report) = step else {
        panic!("a plan that changed under the lock is refused");
    };
    assert_eq!(report.code(), ErrorCode::PlanChangedDuringCommit);

    let (locking, _) = commit(None).advance(CommitAnswer::Planned(Ok(plan(1, 2))));
    let (_, step) = locking.advance(CommitAnswer::Locked(Err(FsError::TransactionBusy)));
    let CommitStep::Refuse(report) = step else {
        panic!("a held lock is a refusal");
    };
    assert_eq!(report.code(), ErrorCode::TransactionBusy);
}

#[test]
fn answers_to_another_question_change_nothing() {
    let (still_planning, step) = commit(None).advance(CommitAnswer::Locked(Ok(())));
    assert_eq!(step, CommitStep::Plan);
    assert_eq!(still_planning.pending(), CommitStep::Plan);
}

#[test]
fn new_files_obey_the_mask() {
    assert_eq!(file_mode(0o022), 0o644);
    assert_eq!(file_mode(0o077), 0o600);
    assert_eq!(file_mode(0), 0o666);
}

#[test]
fn every_end_of_every_operation_is_required() {
    let specification = Specification {
        source: Endpoint {
            path: "from.rs".to_owned(),
            precondition: Precondition::Sha256(Sha256Digest([1; 32])),
        },
        destination: Endpoint {
            path: "to.rs".to_owned(),
            precondition: Precondition::MustNotExist,
        },
    };
    let requirements = snapshot_requirements(&vec![
        Operation::Move(specification.clone()),
        Operation::Copy(specification),
    ]);
    let source = SnapshotRequirement {
        path: "from.rs".to_owned(),
        state: RequiredPathState::Existing(Sha256Digest([1; 32])),
    };
    let destination = SnapshotRequirement {
        path: "to.rs".to_owned(),
        state: RequiredPathState::Absent,
    };
    assert_eq!(
        requirements,
        [source.clone(), destination.clone(), source, destination]
    );
}

#[test]
fn contexts_keep_one_value_per_key_in_key_order() {
    let entries = || {
        vec![
            ("b".to_owned(), number(1)),
            ("a".to_owned(), number(2)),
            ("a".to_owned(), number(3)),
        ]
    };
    let kept = vec![("a".to_owned(), number(3)), ("b".to_owned(), number(1))];

    let report = ErrorDto::new(ErrorCode::InternalError, "m", entries());
    assert_eq!(report.context(), &kept);
    assert_eq!(report.clone(), report);
    let warning = WarningDto::new(WarningCode::DiffTruncated, "m", entries());
    assert_eq!(warning.context.entries(), &kept);
    assert_eq!(
        warning.to_json(),
        json(r#"{"code":"DIFF_TRUNCATED","message":"m","context":{"a":3,"b":1}}"#)
    );
}

#[test]
fn maps_order_their_keys_by_bytes() {
    let keys = ["z", "", "é", "Z", "zz", "a"];
    let entries: Vec<(String, u32)> =
        keys.iter().zip(0u32..).map(|(key, value)| ((*key).to_owned(), value)).collect();
    let map = TextMap::from_entries(entries);
    let found: Vec<(&str, u32)> =
        map.entries().iter().map(|(key, value)| (key.as_str(), *value)).collect();
    assert_eq!(found, [("", 1), ("Z", 3), ("a", 5), ("z", 0), ("zz", 4), ("é", 2)]);
}
