//! The diagram of the lifecycle.

use odoo_operator::controller::state_machine::{transitions, TransitionAction};
use odoo_operator::diagram::{action_name, generate, render, Edge};

fn edge(from: &str, to: &str, guard: &str, actions: &[&str]) -> Edge {
    Edge {
        from: from.to_string(),
        to: to.to_string(),
        guard: guard.to_string(),
        actions: actions.iter().map(|a| a.to_string()).collect(),
    }
}

#[test]
fn edges_are_labelled() {
    let text = render(&vec![
        edge("A", "B", "", &[]),
        edge("A", "C", "g", &[]),
        edge("B", "A", "", &["X"]),
        edge("B", "C", "g", &["X", "Y"]),
    ]);
    assert!(text.ends_with(
        "```mermaid\nstateDiagram-v2\n    [*] --> Provisioning\n\n\
         \x20   A --> B\n    A --> C : [g]\n\n    B --> A : / X\n    B --> C : [g] / X, Y\n```\n"
    ));
    assert!(text.starts_with("# OdooInstance State Machine\n\n"));
}

#[test]
fn the_lifecycle_is_drawn() {
    let text = generate();
    let rows = text.lines().filter(|l| l.contains(" --> ")).count();
    assert_eq!(rows, transitions().len() + 1);
    assert!(text.contains(
        "    Initializing --> Starting : [init_job succeeded] / CompleteInitJob, MarkDbInitialized\n"
    ));
    assert!(text.contains("    Provisioning --> Uninitialized : [!db_initialized]\n"));
    assert!(text.contains("    Error --> Uninitialized : [!db_initialized]\n```\n"));
}

#[test]
fn actions_have_names() {
    assert_eq!(action_name(&TransitionAction::FailBackupJob), "FailBackupJob");
    assert_eq!(
        action_name(&TransitionAction::RollbackFilestoreMigration),
        "RollbackFilestoreMigration"
    );
}
