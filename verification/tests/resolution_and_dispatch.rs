use container_copier::config::{Config, Copyset, TargetSpec};
use container_copier::dispatch::{dispatch_step, DispatchAction, StreamItem};
use container_copier::events::{mask_selects, NotifyEvent};
use container_copier::pathstr::{join_path, str_eq};
use container_copier::resolve::{exists_check_outcome, needs_initial_copy, ResolvedTarget};
use container_copier::table::WatchTable;

fn copyset(events: Option<Vec<&str>>, targets: Vec<TargetSpec>) -> Copyset {
    Copyset::from_named_events(
        "cfg".to_string(),
        "/src".to_string(),
        "/dst".to_string(),
        events.map(|es| es.into_iter().map(|e| e.to_string()).collect()),
        targets,
    )
    .unwrap()
}

fn target_spec(source: &str, target: Option<&str>, events: Option<Vec<&str>>) -> TargetSpec {
    TargetSpec::from_named_events(
        source.to_string(),
        target.map(|t| t.to_string()),
        events.map(|es| es.into_iter().map(|e| e.to_string()).collect()),
    )
    .unwrap()
}

#[test]
fn str_eq_compares_contents() {
    assert!(str_eq("a.txt", "a.txt"));
    assert!(!str_eq("a.txt", "b.txt"));
    assert!(!str_eq("a", "aa"));
    assert!(str_eq("", ""));
    assert!(str_eq("päth/ü", "päth/ü"));
    assert!(!str_eq("päth", "path"));
}

#[test]
fn join_path_inserts_exactly_one_separator() {
    assert_eq!(join_path("/src", "a.txt"), "/src/a.txt");
    assert_eq!(join_path("/src/", "a.txt"), "/src/a.txt");
    assert_eq!(join_path("", "a.txt"), "a.txt");
    assert_eq!(join_path("/dst", "/abs/a.txt"), "/abs/a.txt");
    assert_eq!(join_path("/bäse", "ä.txt"), "/bäse/ä.txt");
}

#[test]
fn absent_relative_target_mirrors_the_source_layout() {
    let ts = target_spec("a.txt", None, None);
    let cs = copyset(None, vec![]);
    assert_eq!(cs.resolve_source(&ts), "/src/a.txt");
    assert_eq!(cs.resolve_target(&ts), "/dst/a.txt");
}

#[test]
fn configured_relative_target_wins_over_the_source_layout() {
    let ts = target_spec("a.txt", Some("renamed.txt"), None);
    let cs = copyset(None, vec![]);
    assert_eq!(cs.resolve_target(&ts), "/dst/renamed.txt");
}

#[test]
fn effective_mask_is_the_override_when_present() {
    let cs = copyset(Some(vec!["CREATE", "MODIFY"]), vec![]);
    let with_override = target_spec("b.log", None, Some(vec!["ACCESS"]));
    let without_override = target_spec("a.txt", None, None);
    assert_eq!(
        cs.effective_mask(&with_override),
        NotifyEvent::Access.bits()
    );
    assert_eq!(
        cs.effective_mask(&without_override),
        NotifyEvent::Create.bits() | NotifyEvent::Modify.bits()
    );
}

#[test]
fn failed_existence_check_counts_as_absent() {
    assert!(exists_check_outcome(Some(true)));
    assert!(!exists_check_outcome(Some(false)));
    assert!(!exists_check_outcome(None));
}

#[test]
fn initial_copy_happens_exactly_when_source_is_a_file_and_target_is_absent() {
    assert!(needs_initial_copy(true, false));
    assert!(!needs_initial_copy(true, true));
    assert!(!needs_initial_copy(false, false));
    assert!(!needs_initial_copy(false, true));
}

#[test]
fn setup_scenario_copies_a_missing_target_before_registration() {
    let ts = target_spec("a.txt", None, None);
    let cs = copyset(None, vec![]);
    let plan = cs.plan_target(&ts, true, false);
    assert!(plan.copy_first);
    assert_eq!(plan.resolved.source, "/src/a.txt");
    assert_eq!(plan.resolved.target, "/dst/a.txt");
}

#[test]
fn setup_scenario_leaves_an_existing_target_alone_until_an_event() {
    let ts = target_spec("a.txt", None, None);
    let cs = copyset(None, vec![]);
    let plan = cs.plan_target(&ts, true, true);
    assert!(!plan.copy_first);
    assert!(mask_selects(plan.mask, NotifyEvent::Modify));

    let mut table = WatchTable::new();
    table.insert(1, plan.resolved);
    match dispatch_step(&table, &StreamItem::Event(1)) {
        DispatchAction::CopyTo(t) => {
            assert_eq!(t.source, "/src/a.txt");
            assert_eq!(t.target, "/dst/a.txt");
        }
        _ => panic!("a known watch identifier must dispatch to its copy action"),
    }
}

#[test]
fn access_only_override_does_not_react_to_modify() {
    let cs = copyset(Some(vec!["CREATE", "MODIFY"]), vec![]);
    let ts = target_spec("b.log", None, Some(vec!["ACCESS"]));
    let plan = cs.plan_target(&ts, true, true);
    assert!(mask_selects(plan.mask, NotifyEvent::Access));
    assert!(!mask_selects(plan.mask, NotifyEvent::Modify));
    assert!(!mask_selects(plan.mask, NotifyEvent::Create));
}

#[test]
fn unknown_watch_identifier_is_skipped_and_does_not_stop_the_loop() {
    let mut table = WatchTable::new();
    table.insert(
        7,
        ResolvedTarget::new("/src/a.txt".to_string(), "/dst/a.txt".to_string()),
    );
    let action = dispatch_step(&table, &StreamItem::Event(99));
    assert!(matches!(action, DispatchAction::Skip));
    assert!(!action.stops());
}

#[test]
fn stream_error_and_end_of_stream_stop_the_loop() {
    let table = WatchTable::new();
    let on_error = dispatch_step(&table, &StreamItem::StreamError);
    assert!(matches!(on_error, DispatchAction::StopError));
    assert!(on_error.stops());
    let on_end = dispatch_step(&table, &StreamItem::EndOfStream);
    assert!(matches!(on_end, DispatchAction::StopClean));
    assert!(on_end.stops());
}

#[test]
fn watch_table_lookup_is_exact() {
    let mut table = WatchTable::new();
    assert_eq!(table.len(), 0);
    table.insert(
        1,
        ResolvedTarget::new("/src/a".to_string(), "/dst/a".to_string()),
    );
    table.insert(
        2,
        ResolvedTarget::new("/src/b".to_string(), "/dst/b".to_string()),
    );
    assert_eq!(table.len(), 2);
    assert_eq!(table.get(1).unwrap().target, "/dst/a");
    assert_eq!(table.get(2).unwrap().source, "/src/b");
    assert!(table.get(3).is_none());
}

#[test]
fn config_holds_copysets_in_declaration_order() {
    let first = copyset(None, vec![target_spec("a.txt", None, None)]);
    let second = copyset(Some(vec!["ALL"]), vec![target_spec("b.log", None, None)]);
    let config = Config {
        copysets: vec![first, second],
    };
    assert_eq!(config.copysets.len(), 2);
    assert_eq!(config.copysets[0].targets[0].source, "a.txt");
    assert_eq!(config.copysets[1].targets[0].source, "b.log");
}
