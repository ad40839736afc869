use mosaic_core::agent::control::{agent_nickname_list, format_subagent_context_line};
use mosaic_core::agent::guards::{exceeds_thread_spawn_depth_limit, next_thread_spawn_depth, Guards};
use mosaic_core::agent::role::{resolve_role, role_config_source, AgentRoleConfig, RoleConfigSource};
use mosaic_core::agent::spawn_tool_spec;
use mosaic_core::agent::status::{agent_status_from_event, is_final};
use mosaic_core::protocol::{
    AgentStatus, ErrorCode, ErrorEvent, EventMsg, TurnAbortReason, TurnAbortedEvent,
    TurnCompleteEvent, TurnStartedEvent,
};
use mosaic_core::strmap::StrMap;

fn new_id() -> String {
    uuid::Uuid::new_v4().to_string()
}

// ── guards ──────────────────────────────────────────────────────

#[test]
fn reservation_drop_releases_slot() {
    let mut guards = Guards::new();
    let reservation = guards.reserve_spawn_slot(Some(1)).expect("reserve slot");
    reservation.cancel(&mut guards);

    let reservation = guards.reserve_spawn_slot(Some(1)).expect("slot released");
    reservation.cancel(&mut guards);
}

#[test]
fn commit_holds_slot_until_release() {
    let mut guards = Guards::new();
    let reservation = guards.reserve_spawn_slot(Some(1)).expect("reserve slot");
    let thread_id = new_id();
    reservation.commit(&mut guards, &thread_id);

    let err = guards.reserve_spawn_slot(Some(1)).unwrap_err();
    assert_eq!(err.code, ErrorCode::SessionError);
    assert_eq!(err.message, "Agent limit reached: max 1 concurrent agents");

    guards.release_spawned_thread(&thread_id);
    let reservation = guards.reserve_spawn_slot(Some(1)).expect("slot released");
    reservation.cancel(&mut guards);
}

#[test]
fn release_ignores_unknown_thread_id() {
    let mut guards = Guards::new();
    let reservation = guards.reserve_spawn_slot(Some(1)).expect("reserve slot");
    let thread_id = new_id();
    reservation.commit(&mut guards, &thread_id);

    guards.release_spawned_thread(&new_id());

    let err = guards.reserve_spawn_slot(Some(1)).unwrap_err();
    assert_eq!(err.code, ErrorCode::SessionError);

    guards.release_spawned_thread(&thread_id);
    let reservation = guards.reserve_spawn_slot(Some(1)).expect("slot released");
    reservation.cancel(&mut guards);
}

#[test]
fn release_is_idempotent_for_registered_threads() {
    let mut guards = Guards::new();
    let reservation = guards.reserve_spawn_slot(Some(1)).expect("reserve slot");
    let first_id = new_id();
    reservation.commit(&mut guards, &first_id);

    guards.release_spawned_thread(&first_id);

    let reservation = guards.reserve_spawn_slot(Some(1)).expect("slot reused");
    let second_id = new_id();
    reservation.commit(&mut guards, &second_id);

    guards.release_spawned_thread(&first_id);
    let err = guards.reserve_spawn_slot(Some(1)).unwrap_err();
    assert_eq!(err.code, ErrorCode::SessionError);

    guards.release_spawned_thread(&second_id);
    let reservation = guards.reserve_spawn_slot(Some(1)).expect("slot released");
    reservation.cancel(&mut guards);
}

#[test]
fn failed_spawn_keeps_nickname_marked_used() {
    let mut guards = Guards::new();
    let mut reservation = guards.reserve_spawn_slot(None).expect("reserve slot");
    let name = reservation.reserve_agent_nickname(&mut guards, &["alpha"]).expect("reserve name");
    assert_eq!(name, "alpha");
    reservation.cancel(&mut guards);

    let mut reservation = guards.reserve_spawn_slot(None).expect("reserve slot");
    let name = reservation
        .reserve_agent_nickname(&mut guards, &["alpha", "beta"])
        .expect("unused name preferred");
    assert_eq!(name, "beta");
}

#[test]
fn agent_nickname_resets_used_pool_when_exhausted() {
    let mut guards = Guards::new();
    let mut first = guards.reserve_spawn_slot(None).expect("reserve first");
    let first_name = first.reserve_agent_nickname(&mut guards, &["alpha"]).expect("reserve");
    let first_id = new_id();
    first.commit(&mut guards, &first_id);
    assert_eq!(first_name, "alpha");

    let mut second = guards.reserve_spawn_slot(None).expect("reserve second");
    let second_name = second
        .reserve_agent_nickname(&mut guards, &["alpha"])
        .expect("reused after pool reset");
    assert_eq!(second_name, "alpha");
    assert_eq!(guards.nickname_reset_count(), 1);
}

#[test]
fn released_nickname_stays_used_until_pool_reset() {
    let mut guards = Guards::new();

    let mut first = guards.reserve_spawn_slot(None).expect("reserve first");
    let first_name = first.reserve_agent_nickname(&mut guards, &["alpha"]).expect("reserve");
    let first_id = new_id();
    first.commit(&mut guards, &first_id);
    assert_eq!(first_name, "alpha");

    guards.release_spawned_thread(&first_id);

    let mut second = guards.reserve_spawn_slot(None).expect("reserve second");
    let second_name = second
        .reserve_agent_nickname(&mut guards, &["alpha", "beta"])
        .expect("released name still marked used");
    assert_eq!(second_name, "beta");
    let second_id = new_id();
    second.commit(&mut guards, &second_id);
    guards.release_spawned_thread(&second_id);

    let mut third = guards.reserve_spawn_slot(None).expect("reserve third");
    let third_name = third
        .reserve_agent_nickname(&mut guards, &["alpha", "beta"])
        .expect("pool reset permits duplicate");
    assert!(third_name == "alpha" || third_name == "beta");
    assert_eq!(guards.nickname_reset_count(), 1);
}

#[test]
fn no_names_is_an_error() {
    let mut guards = Guards::new();
    let mut reservation = guards.reserve_spawn_slot(None).expect("reserve slot");
    let err = reservation.reserve_agent_nickname(&mut guards, &[]).unwrap_err();
    assert_eq!(err.message, "No available agent nicknames");
}

#[test]
fn preferred_nickname_is_taken() {
    let mut guards = Guards::new();
    let mut reservation = guards.reserve_spawn_slot(None).expect("reserve slot");
    let name = reservation
        .reserve_agent_nickname_with_preference(&mut guards, &["alpha"], Some("zeta"))
        .unwrap();
    assert_eq!(name, "zeta");
}

#[test]
fn depth_helpers() {
    assert_eq!(next_thread_spawn_depth(0), 1);
    assert_eq!(next_thread_spawn_depth(5), 6);
    assert!(exceeds_thread_spawn_depth_limit(3, 2));
    assert!(!exceeds_thread_spawn_depth_limit(2, 2));
    assert!(!exceeds_thread_spawn_depth_limit(1, 2));
}

// ── roles ───────────────────────────────────────────────────────

#[test]
fn resolve_built_in_default_role() {
    let user_roles = StrMap::new();
    let (role, is_built_in) = resolve_role("default", &user_roles).unwrap();
    assert!(is_built_in);
    assert!(role.config_file.is_none());
}

#[test]
fn resolve_built_in_explorer_role() {
    let user_roles = StrMap::new();
    let (role, is_built_in) = resolve_role("explorer", &user_roles).unwrap();
    assert!(is_built_in);
    assert!(role.config_file.is_some());
}

#[test]
fn resolve_unknown_role_returns_none() {
    let user_roles = StrMap::new();
    assert!(resolve_role("nonexistent", &user_roles).is_none());
}

#[test]
fn user_defined_role_overrides_built_in() {
    let mut user_roles = StrMap::new();
    user_roles.insert(
        "explorer".to_string(),
        AgentRoleConfig { description: Some("user override".to_string()), config_file: None },
    );
    let (role, is_built_in) = resolve_role("explorer", &user_roles).unwrap();
    assert!(!is_built_in);
    assert_eq!(role.description.as_deref(), Some("user override"));
}

#[test]
fn spawn_tool_spec_deduplicates_roles() {
    let mut user_roles = StrMap::new();
    user_roles.insert(
        "explorer".to_string(),
        AgentRoleConfig { description: Some("user override".to_string()), config_file: None },
    );
    user_roles.insert("researcher".to_string(), AgentRoleConfig::default());

    let spec = spawn_tool_spec::build(&user_roles);
    assert!(spec.contains("researcher: no description"));
    assert!(spec.contains("explorer: {\nuser override\n}"));
    assert!(spec.contains("default: {\nDefault agent.\n}"));
    assert!(!spec.contains("Explorers are fast and authoritative."));
}

#[test]
fn spawn_tool_spec_user_roles_before_built_ins() {
    let mut user_roles = StrMap::new();
    user_roles.insert(
        "aaa".to_string(),
        AgentRoleConfig { description: Some("first".to_string()), config_file: None },
    );

    let spec = spawn_tool_spec::build(&user_roles);
    let user_idx = spec.find("aaa: {\nfirst\n}").expect("find user role");
    let built_in_idx = spec.find("default: {\nDefault agent.\n}").expect("find built-in");
    assert!(user_idx < built_in_idx);
}

#[test]
fn load_role_config_default_returns_none() {
    let user_roles = StrMap::new();
    assert!(role_config_source(None, &user_roles).unwrap().is_none());
    assert!(role_config_source(Some("default"), &user_roles).unwrap().is_none());
}

#[test]
fn load_role_config_unknown_returns_error() {
    let user_roles = StrMap::new();
    let err = role_config_source(Some("missing"), &user_roles).unwrap_err();
    assert!(err.contains("unknown agent_type"));
}

#[test]
fn load_role_config_valid_user_file() {
    let mut user_roles = StrMap::new();
    user_roles.insert(
        "custom".to_string(),
        AgentRoleConfig { description: None, config_file: Some("/tmp/custom.toml".to_string()) },
    );
    match role_config_source(Some("custom"), &user_roles).unwrap() {
        Some(RoleConfigSource::UserFile(path)) => assert_eq!(path, "/tmp/custom.toml"),
        other => panic!("unexpected {:?}", other),
    }
}

// ── status ──────────────────────────────────────────────────────

#[test]
fn turn_started_maps_to_running() {
    let msg = EventMsg::TurnStarted(TurnStartedEvent {
        turn_id: "t1".into(),
        model_context_window: None,
    });
    assert_eq!(agent_status_from_event(&msg), Some(AgentStatus::Running));
}

#[test]
fn turn_complete_maps_to_completed() {
    let msg = EventMsg::TurnComplete(TurnCompleteEvent {
        turn_id: "t1".into(),
        last_agent_message: Some("done".into()),
    });
    assert_eq!(agent_status_from_event(&msg), Some(AgentStatus::Completed(Some("done".into()))));
}

#[test]
fn error_maps_to_errored() {
    let msg = EventMsg::Error(ErrorEvent { message: "boom".into() });
    assert_eq!(agent_status_from_event(&msg), Some(AgentStatus::Errored("boom".into())));
}

#[test]
fn shutdown_maps_to_shutdown() {
    let msg = EventMsg::ShutdownComplete;
    assert_eq!(agent_status_from_event(&msg), Some(AgentStatus::Shutdown));
}

#[test]
fn aborted_turn_maps_to_errored_reason() {
    let msg = EventMsg::TurnAborted(TurnAbortedEvent {
        turn_id: None,
        reason: TurnAbortReason::Interrupted,
    });
    assert_eq!(agent_status_from_event(&msg), Some(AgentStatus::Errored("Interrupted".into())));
    let other = EventMsg::Warning { message: "w".into() };
    assert_eq!(agent_status_from_event(&other), None);
}

#[test]
fn is_final_checks() {
    assert!(!is_final(&AgentStatus::PendingInit));
    assert!(!is_final(&AgentStatus::Running));
    assert!(is_final(&AgentStatus::Completed(None)));
    assert!(is_final(&AgentStatus::Errored("err".into())));
    assert!(is_final(&AgentStatus::Shutdown));
    assert!(is_final(&AgentStatus::NotFound));
}

// ── control ─────────────────────────────────────────────────────

#[test]
fn nickname_list_skips_blank_lines() {
    let names = agent_nickname_list("alpha\n\n  beta  \n");
    assert_eq!(names, vec!["alpha".to_string(), "beta".to_string()]);
}

#[test]
fn subagent_context_line_names_the_agent() {
    let line = format_subagent_context_line("t-1", Some("alpha"));
    assert_eq!(line, "- t-1: alpha");
    assert_eq!(format_subagent_context_line("t-2", Some("")), "- t-2");
    assert_eq!(format_subagent_context_line("t-3", None), "- t-3");
}

use mosaic_core::agent::control::{format_environment_context_subagents, ThreadListing};

#[test]
fn environment_context_lists_spawned_subagents_sorted() {
    let threads = vec![
        ThreadListing { thread_id: "t-2".into(), spawned_by: Some("parent".into()), agent_nickname: Some("Bee".into()) },
        ThreadListing { thread_id: "t-9".into(), spawned_by: Some("other".into()), agent_nickname: None },
        ThreadListing { thread_id: "t-1".into(), spawned_by: Some("parent".into()), agent_nickname: Some(String::new()) },
        ThreadListing { thread_id: "t-3".into(), spawned_by: None, agent_nickname: None },
    ];
    assert_eq!(format_environment_context_subagents(&threads, "parent"), "- t-1\n- t-2: Bee");
    assert_eq!(format_environment_context_subagents(&threads, "nobody"), "");
}

use mosaic_core::agent::batch::{
    batch_result, check_batch_concurrency, csv_read_error, order_batch_results, parse_batch_rows, task_panicked_error,
};

#[test]
fn batch_rows_skip_blank_lines_and_trim_cells() {
    let rows = parse_batch_rows("a, b\n\n  \nc,d ,\ne\n");
    assert_eq!(rows, vec![vec!["a", "b"], vec!["c", "d", ""], vec!["e"]]);
    assert!(parse_batch_rows("").is_empty());
}

#[test]
fn batch_needs_concurrency() {
    let err = check_batch_concurrency(0).unwrap_err();
    assert_eq!(err.code, ErrorCode::InvalidInput);
    assert_eq!(err.message, "Batch concurrency must be at least 1");
    assert!(check_batch_concurrency(3).is_ok());
    assert_eq!(csv_read_error("/x.csv", "missing").message, "Failed to read CSV file /x.csv: missing");
    assert_eq!(task_panicked_error("boom").code, ErrorCode::InternalError);
}

#[test]
fn batch_results_come_in_row_order() {
    let results = vec![
        batch_result(2, Ok("c".into())),
        batch_result(0, Err("a failed".into())),
        batch_result(1, Ok("b".into())),
    ];
    let ordered = order_batch_results(results);
    assert_eq!(ordered.iter().map(|r| r.row_index).collect::<Vec<_>>(), vec![0, 1, 2]);
    assert!(!ordered[0].success);
    assert_eq!(ordered[0].output, "a failed");
    assert_eq!(ordered[2].output, "c");
}
