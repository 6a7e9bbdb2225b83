use radial::commands::{edit, goal, task};
use radial::db::Database;
use radial::order::topo_sort;

fn fresh_db() -> Database {
    let mut db = Database::open(":memory:").expect("open in-memory store");
    db.init_schema().expect("schema");
    db
}

fn ids(tasks: &[radial::models::Task]) -> Vec<String> {
    tasks.iter().map(|t| t.id.clone()).collect()
}

#[test]
fn topological_listing_in_creation_order() {
    let mut db = fresh_db();
    let g = goal::create(&mut db, "g".to_string()).unwrap();
    let a = task::create(&mut db, &g.id, "a".to_string(), None, None, None, None).unwrap();
    let b = task::create(
        &mut db,
        &g.id,
        "b".to_string(),
        None,
        None,
        None,
        Some(vec![a.id.clone()]),
    )
    .unwrap();
    let c = task::create(
        &mut db,
        &g.id,
        "c".to_string(),
        None,
        None,
        None,
        Some(vec![a.id.clone(), b.id.clone()]),
    )
    .unwrap();

    let tasks = db.list_tasks(&g.id).unwrap();
    let ordered = topo_sort(&tasks);
    assert_eq!(ids(&ordered), vec![a.id, b.id, c.id]);
}

#[test]
fn topological_listing_ignores_creation_order_of_edges() {
    let mut db = fresh_db();
    let g = goal::create(&mut db, "g".to_string()).unwrap();
    // create in reverse, then wire the same dependency structure by edits
    let c = task::create(&mut db, &g.id, "c".to_string(), None, None, None, None).unwrap();
    let b = task::create(&mut db, &g.id, "b".to_string(), None, None, None, None).unwrap();
    let a = task::create(&mut db, &g.id, "a".to_string(), None, None, None, None).unwrap();
    edit::task(&mut db, &b.id, None, None, None, None, Some(vec![a.id.clone()])).unwrap();
    edit::task(
        &mut db,
        &c.id,
        None,
        None,
        None,
        None,
        Some(vec![a.id.clone(), b.id.clone()]),
    )
    .unwrap();

    let tasks = db.list_tasks(&g.id).unwrap();
    let ordered = topo_sort(&tasks);
    assert_eq!(ids(&ordered), vec![a.id, b.id, c.id]);
}

#[test]
fn out_of_set_blockers_do_not_block_ordering() {
    let mut db = fresh_db();
    let g1 = goal::create(&mut db, "g1".to_string()).unwrap();
    let other = task::create(&mut db, &g1.id, "other".to_string(), None, None, None, None)
        .unwrap();

    let g2 = goal::create(&mut db, "g2".to_string()).unwrap();
    let lone = task::create(&mut db, &g2.id, "lone".to_string(), None, None, None, None).unwrap();

    // hand-build a snapshot where a task waits on an id outside the set
    let mut tasks = db.list_tasks(&g2.id).unwrap();
    tasks[0].blocked_by = Some(vec![other.id.clone()]);
    let ordered = topo_sort(&tasks);
    assert_eq!(ids(&ordered), vec![lone.id]);
}

#[test]
fn cyclic_tasks_are_left_out() {
    let mut db = fresh_db();
    let g = goal::create(&mut db, "g".to_string()).unwrap();
    let a = task::create(&mut db, &g.id, "a".to_string(), None, None, None, None).unwrap();
    let b = task::create(&mut db, &g.id, "b".to_string(), None, None, None, None).unwrap();
    let free = task::create(&mut db, &g.id, "free".to_string(), None, None, None, None).unwrap();

    // wire a cycle a <-> b by hand on the snapshot
    let mut tasks = db.list_tasks(&g.id).unwrap();
    for t in tasks.iter_mut() {
        if t.id == a.id {
            t.blocked_by = Some(vec![b.id.clone()]);
        } else if t.id == b.id {
            t.blocked_by = Some(vec![a.id.clone()]);
        }
    }
    let ordered = topo_sort(&tasks);
    assert_eq!(ids(&ordered), vec![free.id]);
}

#[test]
fn full_listing_orders_every_goal() {
    let mut db = fresh_db();
    let g = goal::create(&mut db, "g".to_string()).unwrap();
    let a = task::create(&mut db, &g.id, "a".to_string(), None, None, None, None).unwrap();
    let b = task::create(
        &mut db,
        &g.id,
        "b".to_string(),
        None,
        None,
        None,
        Some(vec![a.id.clone()]),
    )
    .unwrap();

    let all = radial::commands::list::run(&mut db).unwrap();
    assert_eq!(all.len(), 1);
    assert_eq!(ids(&all[0].tasks), vec![a.id, b.id]);
    assert_eq!(all[0].metrics.task_count, 2);
}

#[test]
fn ties_among_ready_tasks_break_by_creation_order() {
    let mut db = fresh_db();
    let g = goal::create(&mut db, "g".to_string()).unwrap();
    // creation order: b, d, c; both b and c wait on d
    let b = task::create(&mut db, &g.id, "b".to_string(), None, None, None, None).unwrap();
    let d = task::create(&mut db, &g.id, "d".to_string(), None, None, None, None).unwrap();
    let c = task::create(&mut db, &g.id, "c".to_string(), None, None, None, None).unwrap();
    edit::task(&mut db, &b.id, None, None, None, None, Some(vec![d.id.clone()])).unwrap();
    edit::task(&mut db, &c.id, None, None, None, None, Some(vec![d.id.clone()])).unwrap();

    let tasks = db.list_tasks(&g.id).unwrap();
    let ordered = topo_sort(&tasks);
    // d unblocks both; b was created before c, so b comes first
    assert_eq!(ids(&ordered), vec![d.id, b.id, c.id]);
}
