use merco::errors::AppError;
use merco::strategy::{BuildOutcome, StrategyManager};

#[test]
fn a_built_strategy_is_found() {
    let mut manager = StrategyManager::new("/srv/strategies".to_string());
    manager
        .register("alpha", BuildOutcome::Built("/srv/strategies/alpha/libalpha.so".to_string()))
        .unwrap();
    let entry = manager.lookup("alpha").unwrap();
    assert_eq!(entry.name, "alpha");
    assert_eq!(entry.path, "/srv/strategies/alpha/libalpha.so");
    assert_eq!(manager.list().len(), 1);
    assert_eq!(manager.position("alpha"), Some(0));
}

#[test]
fn a_strategy_without_a_build_is_not_found() {
    let manager = StrategyManager::new("/srv/strategies".to_string());
    assert!(matches!(manager.lookup("alpha"), Err(AppError::NotFound(_))));
    assert_eq!(manager.position("alpha"), None);
}

#[test]
fn a_refused_build_registers_nothing() {
    let mut manager = StrategyManager::new("/srv/strategies".to_string());
    match manager.register("alpha", BuildOutcome::Refused("error[E0425]: cannot find value".to_string())) {
        Err(AppError::Build(message)) => assert_eq!(message, "error[E0425]: cannot find value"),
        other => panic!("unexpected: {:?}", other),
    }
    assert!(manager.list().is_empty());
    assert!(matches!(manager.lookup("alpha"), Err(AppError::NotFound(_))));
}

#[test]
fn a_second_build_replaces_the_first() {
    let mut manager = StrategyManager::new("/srv/strategies".to_string());
    manager.register("alpha", BuildOutcome::Built("a1".to_string())).unwrap();
    manager.register("beta", BuildOutcome::Built("b1".to_string())).unwrap();
    manager.register("alpha", BuildOutcome::Built("a2".to_string())).unwrap();
    assert_eq!(manager.list().len(), 2);
    assert_eq!(manager.lookup("alpha").unwrap().path, "a2");
    assert_eq!(manager.lookup("beta").unwrap().path, "b1");
    assert_eq!(manager.list()[0].name, "alpha");
    assert!(manager.register("beta", BuildOutcome::Refused("no".to_string())).is_err());
    assert_eq!(manager.lookup("beta").unwrap().path, "b1");
}

#[test]
fn delete_is_planned_below_the_root() {
    let manager = StrategyManager::new("/srv/strategies".to_string());
    assert_eq!(manager.plan_delete("alpha/src/lib.rs").unwrap(), "/srv/strategies/alpha/src/lib.rs");
    assert_eq!(manager.resolve(" /alpha ").unwrap(), "/srv/strategies/alpha");
}

#[test]
fn delete_refuses_parent_steps() {
    let manager = StrategyManager::new("/srv/strategies".to_string());
    for path in ["../other", "alpha/../../etc/passwd", "..", "/.."] {
        assert!(matches!(manager.plan_delete(path), Err(AppError::BadRequest(_))), "{}", path);
    }
}

#[test]
fn move_is_planned_below_the_root() {
    let manager = StrategyManager::new("/srv/strategies/".to_string());
    assert_eq!(
        manager.plan_move("alpha/a.rs", "/beta/b.rs").unwrap(),
        ("/srv/strategies/alpha/a.rs".to_string(), "/srv/strategies/beta/b.rs".to_string())
    );
}

#[test]
fn move_refuses_parent_steps_on_either_side() {
    let manager = StrategyManager::new("/srv/strategies".to_string());
    assert!(matches!(manager.plan_move("../a", "b"), Err(AppError::BadRequest(_))));
    assert!(matches!(manager.plan_move("a", "b/../../c"), Err(AppError::BadRequest(_))));
    assert!(matches!(manager.plan_move("..", ".."), Err(AppError::BadRequest(_))));
}

#[test]
fn manager_errors_carry_their_messages() {
    let manager = StrategyManager::new("/srv/strategies".to_string());
    match manager.lookup("alpha") {
        Err(AppError::NotFound(message)) => assert_eq!(message, "Strategy is not built"),
        other => panic!("unexpected: {:?}", other),
    }
    match manager.plan_move("a", "../b") {
        Err(AppError::BadRequest(message)) => {
            assert_eq!(message, "Path traversal attempt detected")
        }
        other => panic!("unexpected: {:?}", other),
    }
    match manager.plan_delete("../b") {
        Err(AppError::BadRequest(message)) => {
            assert_eq!(message, "Path traversal attempt detected")
        }
        other => panic!("unexpected: {:?}", other),
    }
}

#[test]
fn a_manager_with_a_repeated_name_is_recognised() {
    let mut manager = StrategyManager::new("/srv/strategies".to_string());
    manager.register("alpha", BuildOutcome::Built("a".to_string())).unwrap();
    manager.register("beta", BuildOutcome::Built("b".to_string())).unwrap();
    assert!(manager.is_wf());
    let copy = manager.entries[0].clone();
    manager.entries.push(copy);
    assert!(!manager.is_wf());
}
