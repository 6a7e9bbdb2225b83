use radial::commands::{clean, goal, ready, show, status, task};
use radial::db::Database;
use radial::errors::{EngineError, EntityKind};
use radial::state::{GoalState, TaskState};

fn fresh_db() -> Database {
    let mut db = Database::open(":memory:").expect("open in-memory store");
    db.init_schema().expect("schema");
    db
}

#[test]
fn stored_task_round_trips() {
    let mut db = fresh_db();
    let g = goal::create(&mut db, "g".to_string()).unwrap();
    let a = task::create(&mut db, &g.id, "a".to_string(), None, None, None, None).unwrap();
    let t = task::create(
        &mut db,
        &g.id,
        "with everything".to_string(),
        Some("in".to_string()),
        Some("out".to_string()),
        Some("check".to_string()),
        Some(vec![a.id.clone()]),
    )
    .unwrap();

    let back = db.get_task(&t.id).unwrap().unwrap();
    assert_eq!(back.id, t.id);
    assert_eq!(back.goal_id, g.id);
    assert_eq!(back.description, "with everything");
    let c = back.contract.expect("contract");
    assert_eq!(c.receives, "in");
    assert_eq!(c.produces, "out");
    assert_eq!(c.verify, "check");
    assert_eq!(back.blocked_by, Some(vec![a.id.clone()]));
    assert_eq!(back.state, TaskState::Blocked);
    assert!(back.result.is_none());
    assert_eq!(back.created_at, t.created_at);
    assert_eq!(back.metrics.retry_count, 0);
}

#[test]
fn partial_contract_fills_empty_strings() {
    let mut db = fresh_db();
    let g = goal::create(&mut db, "g".to_string()).unwrap();
    let t = task::create(
        &mut db,
        &g.id,
        "partial".to_string(),
        Some("in".to_string()),
        None,
        None,
        None,
    )
    .unwrap();
    let back = db.get_task(&t.id).unwrap().unwrap();
    let c = back.contract.expect("contract");
    assert_eq!(c.receives, "in");
    assert_eq!(c.produces, "");
    assert_eq!(c.verify, "");
}

#[test]
fn completion_records_result_and_metrics() {
    let mut db = fresh_db();
    let g = goal::create(&mut db, "g".to_string()).unwrap();
    let t = task::create(
        &mut db,
        &g.id,
        "t".to_string(),
        Some("r".to_string()),
        None,
        None,
        None,
    )
    .unwrap();
    task::start(&mut db, &t.id).unwrap();
    task::complete(
        &mut db,
        &t.id,
        "shipped".to_string(),
        Some(vec!["src/a.rs".to_string(), "src/b.rs".to_string()]),
        Some(1500),
        Some(30000),
    )
    .unwrap();

    let back = db.get_task(&t.id).unwrap().unwrap();
    assert_eq!(back.state, TaskState::Completed);
    let out = back.result.expect("result");
    assert_eq!(out.summary, "shipped");
    assert_eq!(out.artifacts, vec!["src/a.rs".to_string(), "src/b.rs".to_string()]);
    assert_eq!(back.metrics.tokens, 1500);
    assert_eq!(back.metrics.elapsed_ms, 30000);
    assert!(back.completed_at.is_some());

    let m = db.compute_goal_metrics(&g.id).unwrap();
    assert_eq!(m.total_tokens, 1500);
    assert_eq!(m.elapsed_ms, 30000);
    assert_eq!(m.task_count, 1);
    assert_eq!(m.tasks_completed, 1);
    assert_eq!(m.tasks_failed, 0);
    assert_eq!(m.prompt_tokens, 0);
    assert_eq!(m.completion_tokens, 0);
}

#[test]
fn state_names_round_trip() {
    let task_states = [
        TaskState::Pending,
        TaskState::Blocked,
        TaskState::InProgress,
        TaskState::Verifying,
        TaskState::Completed,
        TaskState::Failed,
    ];
    for s in task_states {
        assert_eq!(TaskState::from_str(s.as_str()), Some(s));
    }
    assert_eq!(TaskState::from_str("bogus"), None);

    let goal_states = [
        GoalState::Pending,
        GoalState::InProgress,
        GoalState::Completed,
        GoalState::Failed,
    ];
    for s in goal_states {
        assert_eq!(GoalState::from_str(s.as_str()), Some(s));
    }
    assert_eq!(GoalState::from_str("bogus"), None);
}

#[test]
fn unknown_goal_is_reported_with_suggestion() {
    let mut db = fresh_db();
    let g = goal::create(&mut db, "g".to_string()).unwrap();
    let mut typo = g.id.clone();
    typo.pop();
    typo.push('!');
    match task::create(&mut db, &typo, "t".to_string(), None, None, None, None) {
        Err(EngineError::NotFound { kind, id, suggestion }) => {
            assert_eq!(kind, EntityKind::Goal);
            assert_eq!(id, typo);
            assert_eq!(suggestion, Some(g.id.clone()));
        }
        other => panic!("expected NotFound, got {:?}", other.map(|t| t.state)),
    }
}

#[test]
fn blocked_by_must_name_tasks_of_the_goal() {
    let mut db = fresh_db();
    let g = goal::create(&mut db, "g".to_string()).unwrap();
    let a = task::create(&mut db, &g.id, "a".to_string(), None, None, None, None).unwrap();

    // a missing id is rejected with a suggestion
    let mut typo = a.id.clone();
    typo.pop();
    typo.push('!');
    match task::create(
        &mut db,
        &g.id,
        "d".to_string(),
        None,
        None,
        None,
        Some(vec![typo.clone()]),
    ) {
        Err(EngineError::Validation { bad_id, suggestion }) => {
            assert_eq!(bad_id, typo);
            assert_eq!(suggestion, Some(a.id.clone()));
        }
        other => panic!("expected Validation, got {:?}", other.map(|t| t.state)),
    }

    // a repeated id is rejected
    match task::create(
        &mut db,
        &g.id,
        "d".to_string(),
        None,
        None,
        None,
        Some(vec![a.id.clone(), a.id.clone()]),
    ) {
        Err(EngineError::Validation { bad_id, .. }) => assert_eq!(bad_id, a.id),
        other => panic!("expected Validation, got {:?}", other.map(|t| t.state)),
    }

    // nothing was written either time
    assert_eq!(db.list_tasks(&g.id).unwrap().len(), 1);
}

#[test]
fn ready_lists_pending_tasks_with_contract() {
    let mut db = fresh_db();
    let g = goal::create(&mut db, "g".to_string()).unwrap();
    let with = task::create(
        &mut db,
        &g.id,
        "with".to_string(),
        Some("r".to_string()),
        None,
        None,
        None,
    )
    .unwrap();
    let _without =
        task::create(&mut db, &g.id, "without".to_string(), None, None, None, None).unwrap();
    let _blocked = task::create(
        &mut db,
        &g.id,
        "blocked".to_string(),
        Some("r".to_string()),
        None,
        None,
        Some(vec![with.id.clone()]),
    )
    .unwrap();

    let (_, ready) = ready::run(&mut db, &g.id).unwrap();
    assert_eq!(ready.len(), 1);
    assert_eq!(ready[0].id, with.id);
}

#[test]
fn show_resolves_tasks_then_goals_then_suggests() {
    let mut db = fresh_db();
    let g = goal::create(&mut db, "g".to_string()).unwrap();
    let t = task::create(&mut db, &g.id, "t".to_string(), None, None, None, None).unwrap();

    match show::run(&mut db, &t.id).unwrap() {
        show::ShowResult::Task(found) => assert_eq!(found.id, t.id),
        _ => panic!("expected a task"),
    }
    match show::run(&mut db, &g.id).unwrap() {
        show::ShowResult::Goal { goal, tasks, metrics } => {
            assert_eq!(goal.id, g.id);
            assert_eq!(tasks.len(), 1);
            assert_eq!(metrics.task_count, 1);
        }
        _ => panic!("expected a goal"),
    }

    let mut typo = t.id.clone();
    typo.pop();
    typo.push('!');
    match show::run(&mut db, &typo) {
        Err(EngineError::NotFound { kind, suggestion, .. }) => {
            assert_eq!(kind, EntityKind::Either);
            assert_eq!(suggestion, Some(t.id.clone()));
        }
        _ => panic!("expected NotFound"),
    }
}

#[test]
fn status_dispatches_task_goal_all() {
    let mut db = fresh_db();
    let g = goal::create(&mut db, "g".to_string()).unwrap();
    let t = task::create(&mut db, &g.id, "t".to_string(), None, None, None, None).unwrap();

    match status::run(&mut db, None, Some(t.id.clone())).unwrap() {
        status::StatusResult::Task(found) => assert_eq!(found.id, t.id),
        _ => panic!("expected a task"),
    }
    match status::run(&mut db, Some(g.id.clone()), None).unwrap() {
        status::StatusResult::Goal { goal, .. } => assert_eq!(goal.id, g.id),
        _ => panic!("expected a goal"),
    }
    match status::run(&mut db, None, None).unwrap() {
        status::StatusResult::All(v) => assert_eq!(v.len(), 1),
        _ => panic!("expected all goals"),
    }
}

#[test]
fn clean_removes_goals_and_their_tasks() {
    let mut db = fresh_db();
    let done = goal::create(&mut db, "done".to_string()).unwrap();
    let t = task::create(
        &mut db,
        &done.id,
        "t".to_string(),
        Some("r".to_string()),
        None,
        None,
        None,
    )
    .unwrap();
    task::start(&mut db, &t.id).unwrap();
    task::complete(&mut db, &t.id, "done".to_string(), None, None, None).unwrap();

    let open = goal::create(&mut db, "open".to_string()).unwrap();

    let completed_only = clean::candidates(&mut db, false).unwrap();
    assert_eq!(completed_only.len(), 1);
    assert_eq!(completed_only[0].id, done.id);

    let everything = clean::candidates(&mut db, true).unwrap();
    assert_eq!(everything.len(), 2);

    // removing the completed goal removes its task too
    let removed = clean::remove(&mut db, &done.id).unwrap();
    assert_eq!(removed, 2);
    assert!(db.get_goal(&done.id).unwrap().is_none());
    assert!(db.get_task(&t.id).unwrap().is_none());
    assert!(db.get_goal(&open.id).unwrap().is_some());
}

#[test]
fn goals_list_newest_first() {
    let mut db = fresh_db();
    let a = goal::create(&mut db, "a".to_string()).unwrap();
    let b = goal::create(&mut db, "b".to_string()).unwrap();
    let goals = goal::list(&mut db).unwrap();
    assert_eq!(goals.len(), 2);
    assert_eq!(goals[0].id, b.id);
    assert_eq!(goals[1].id, a.id);
}

#[test]
fn unknown_task_is_reported_with_suggestion() {
    let mut db = fresh_db();
    let g = goal::create(&mut db, "g".to_string()).unwrap();
    let t = task::create(&mut db, &g.id, "t".to_string(), None, None, None, None).unwrap();
    let mut typo = t.id.clone();
    typo.pop();
    typo.push('!');
    match task::start(&mut db, &typo) {
        Err(EngineError::NotFound { kind, id, suggestion }) => {
            assert_eq!(kind, EntityKind::Task);
            assert_eq!(id, typo);
            assert_eq!(suggestion, Some(t.id.clone()));
        }
        other => panic!("expected NotFound, got {:?}", other.map(|t| t.state)),
    }
}

#[test]
fn unopenable_store_is_a_storage_error() {
    match Database::open("/nonexistent-dir-for-sure/store.db") {
        Err(EngineError::Storage) => {}
        _ => panic!("expected Storage"),
    }
}

#[test]
fn matcher_handles_empty_candidate_list() {
    let empty: Vec<String> = Vec::new();
    assert_eq!(radial::similar::find_similar_id("abc", &empty), None);
}

#[test]
fn error_codes_are_stable() {
    assert_eq!(EngineError::Conflict.code(), "conflict");
    assert_eq!(EngineError::NeedsContract.code(), "needs_contract");
    assert_eq!(EngineError::Storage.code(), "storage");
}
