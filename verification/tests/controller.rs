use abylab_tui::backend::{DriverEvent, SessionFact, Todo, TodoStatus};
use abylab_tui::bus::AppEvent;
use abylab_tui::controller::translate_backend;
use abylab_tui::events::{PlanStatus, UiEvent};

#[test]
fn backend_plan_progress_reaches_the_tui() {
    let events = translate_backend(DriverEvent::Ui(SessionFact::Plan {
        session: "s1".into(),
        summary: "1 of 3 done · now: patch · 1 pending".into(),
        todos: vec![
            Todo { content: "inspect".into(), status: TodoStatus::Completed },
            Todo { content: "patch".into(), status: TodoStatus::InProgress },
            Todo { content: "test".into(), status: TodoStatus::Pending },
        ],
        active: Some("patch".into()),
        active_extra: 1,
        completed: 1,
        total: 3,
    }));
    let AppEvent::Ui(ui) = &events[0] else {
        panic!("one ui event");
    };
    let progress = ui.plan_progress().expect("a checklist");
    assert_eq!(progress.active.as_deref(), Some("patch"));
    assert_eq!(progress.active_extra, 1);
    assert_eq!(progress.completed, 1);
    assert_eq!(progress.total, 3);
    assert_eq!(
        progress
            .todos
            .iter()
            .map(|todo| (todo.content.as_str(), todo.status))
            .collect::<Vec<_>>(),
        [
            ("inspect", PlanStatus::Completed),
            ("patch", PlanStatus::InProgress),
            ("test", PlanStatus::Pending),
        ]
    );
}

#[test]
fn backend_permission_facts_reach_the_tui() {
    let events = translate_backend(DriverEvent::Ui(SessionFact::PermissionPreset {
        session: "s1".into(),
        preset: "read-only".into(),
    }));
    assert!(matches!(
        &events[0],
        AppEvent::Ui(UiEvent::PermissionPreset { session, preset })
            if session == "s1" && preset == "read-only"
    ));

    let events = translate_backend(DriverEvent::Ui(SessionFact::SandboxMode {
        session: "s1".into(),
        mode: "read-only".into(),
    }));
    assert!(matches!(
        &events[0],
        AppEvent::Ui(UiEvent::SandboxMode { session, mode })
            if session == "s1" && mode == "read-only"
    ));
}
