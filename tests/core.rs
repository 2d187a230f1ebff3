use oxker::app_data::AppData;
use oxker::command::{DockerAction, DockerMessage, InputEvent};
use oxker::config::{drop_self, is_containerised, resolve_host};
use oxker::gui::{GuiState, Modal, Severity, Status, STATUS_CAPACITY};
use oxker::input::handle_input;
use oxker::lifecycle::{
    headless_next, input_next, render_next, supervise, HeadlessStep, InputStep, Probe, RenderStep,
};
use oxker::model::{cpu_centi_percent, AppError, ContainerRecord, ContainerState, PortBinding};
use oxker::poller::{
    apply_action_outcome, apply_list_outcome, container_label, poller_next, ActionOutcome,
    AfterAction, ListOutcome, PollerStep, Wake,
};
use oxker::reconcile::{find_index, reconcile};

fn rec(id: &str, name: &str, state: ContainerState, cpu: u64) -> ContainerRecord {
    ContainerRecord {
        id: id.to_string(),
        name: name.to_string(),
        image: "alpine:3".to_string(),
        command: "sleep".to_string(),
        state,
        cpu_centi_percent: cpu,
        memory_bytes: 1024,
        ports: vec![PortBinding { private: 80, public: Some(8080) }],
        created: 1_700_000_000,
    }
}

fn summary(v: &[ContainerRecord]) -> Vec<(String, String, ContainerState, u64)> {
    v.iter()
        .map(|r| (r.id.clone(), r.name.clone(), r.state, r.cpu_centi_percent))
        .collect()
}

fn ids(v: &[ContainerRecord]) -> Vec<String> {
    v.iter().map(|r| r.id.clone()).collect()
}

#[test]
fn reconcile_twice_is_idempotent() {
    let mut current = vec![
        rec("a", "alpha", ContainerState::Running, 1),
        rec("b", "beta", ContainerState::Paused, 2),
    ];
    let listing = vec![
        rec("b", "beta", ContainerState::Running, 5),
        rec("c", "gamma", ContainerState::Created, 0),
    ];
    reconcile(&mut current, &listing);
    let once = summary(&current);
    reconcile(&mut current, &listing);
    assert_eq!(summary(&current), once);
    assert_eq!(ids(&current), vec!["b", "c"]);
}

#[test]
fn reconcile_keeps_order_on_churn() {
    let mut current = vec![
        rec("A", "a", ContainerState::Running, 1),
        rec("B", "b", ContainerState::Running, 2),
        rec("C", "c", ContainerState::Running, 3),
    ];
    let listing = vec![
        rec("B", "b2", ContainerState::Exited, 20),
        rec("C", "c2", ContainerState::Paused, 30),
        rec("D", "d", ContainerState::Created, 40),
    ];
    reconcile(&mut current, &listing);
    assert_eq!(
        summary(&current),
        vec![
            ("B".to_string(), "b2".to_string(), ContainerState::Exited, 20),
            ("C".to_string(), "c2".to_string(), ContainerState::Paused, 30),
            ("D".to_string(), "d".to_string(), ContainerState::Created, 40),
        ]
    );
}

#[test]
fn reconcile_keeps_existing_order_not_listing_order() {
    let mut current = vec![
        rec("x", "x", ContainerState::Running, 0),
        rec("y", "y", ContainerState::Running, 0),
    ];
    let listing = vec![
        rec("n", "n", ContainerState::Running, 0),
        rec("y", "y", ContainerState::Running, 0),
        rec("x", "x", ContainerState::Running, 0),
    ];
    reconcile(&mut current, &listing);
    assert_eq!(ids(&current), vec!["x", "y", "n"]);
}

#[test]
fn reconcile_with_empty_listing_empties() {
    let mut current = vec![rec("x", "x", ContainerState::Running, 0)];
    reconcile(&mut current, &Vec::new());
    assert!(current.is_empty());
}

#[test]
fn find_index_returns_first_match() {
    let v = vec![
        rec("p", "one", ContainerState::Running, 0),
        rec("q", "two", ContainerState::Running, 0),
        rec("q", "three", ContainerState::Running, 0),
    ];
    assert_eq!(find_index(&v, &"q".to_string()), Some(1));
    assert_eq!(find_index(&v, &"z".to_string()), None);
}

fn app_with(n: usize) -> AppData {
    let mut app = AppData::new();
    for i in 0..n {
        app.containers
            .push(rec(&format!("id{i}"), &format!("c{i}"), ContainerState::Running, 0));
    }
    app
}

#[test]
fn selection_stays_clamped() {
    let app = app_with(3);
    let mut gui = GuiState::new();
    assert_eq!(gui.selected, None);
    handle_input(&mut gui, &app, InputEvent::Up);
    assert_eq!(gui.selected, Some(0));
    for _ in 0..5 {
        handle_input(&mut gui, &app, InputEvent::Down);
    }
    assert_eq!(gui.selected, Some(2));
    handle_input(&mut gui, &app, InputEvent::Up);
    assert_eq!(gui.selected, Some(1));
    let empty = AppData::new();
    handle_input(&mut gui, &empty, InputEvent::Down);
    assert_eq!(gui.selected, None);
    let mut small = app_with(1);
    gui.selected = Some(7);
    handle_input(&mut gui, &small, InputEvent::ForceUpdate);
    assert_eq!(gui.selected, Some(0));
    small.containers.clear();
    handle_input(&mut gui, &small, InputEvent::Help);
    assert_eq!(gui.selected, None);
}

#[test]
fn selection_clamped_after_listing_shrinks() {
    let mut app = app_with(3);
    let mut gui = GuiState::new();
    gui.selected = Some(2);
    let listing = vec![rec("id0", "c0", ContainerState::Running, 0)];
    assert!(apply_list_outcome(&mut app, &mut gui, ListOutcome::Listed(listing), 10));
    assert_eq!(app.len(), 1);
    assert_eq!(gui.selected, Some(0));
    assert!(apply_list_outcome(&mut app, &mut gui, ListOutcome::Listed(Vec::new()), 10));
    assert_eq!(gui.selected, None);
}

#[test]
fn action_event_sends_command_for_selected() {
    let app = app_with(2);
    let mut gui = GuiState::new();
    handle_input(&mut gui, &app, InputEvent::Down);
    handle_input(&mut gui, &app, InputEvent::Down);
    let effect = handle_input(&mut gui, &app, InputEvent::Action(DockerAction::Stop));
    assert!(!effect.shutdown);
    match effect.send {
        Some(DockerMessage::ContainerAction { id, action }) => {
            assert_eq!(id, "id1");
            assert_eq!(action, DockerAction::Stop);
        }
        other => panic!("unexpected {other:?}"),
    }
}

#[test]
fn remove_asks_for_confirmation() {
    let app = app_with(1);
    let mut gui = GuiState::new();
    let effect = handle_input(&mut gui, &app, InputEvent::Action(DockerAction::Remove));
    assert!(effect.send.is_none());
    assert!(matches!(gui.modal, Modal::Confirm { action: DockerAction::Remove, .. }));
    let effect = handle_input(&mut gui, &app, InputEvent::Confirm);
    assert!(matches!(gui.modal, Modal::Hidden));
    match effect.send {
        Some(DockerMessage::ContainerAction { id, action }) => {
            assert_eq!(id, "id0");
            assert_eq!(action, DockerAction::Remove);
        }
        other => panic!("unexpected {other:?}"),
    }
    handle_input(&mut gui, &app, InputEvent::Action(DockerAction::Remove));
    let effect = handle_input(&mut gui, &app, InputEvent::Cancel);
    assert!(effect.send.is_none());
    assert!(matches!(gui.modal, Modal::Hidden));
}

#[test]
fn action_without_containers_does_nothing() {
    let app = AppData::new();
    let mut gui = GuiState::new();
    let effect = handle_input(&mut gui, &app, InputEvent::Action(DockerAction::Start));
    assert!(effect.send.is_none());
    assert!(matches!(gui.modal, Modal::Hidden));
}

#[test]
fn help_and_logs_overlays() {
    let app = app_with(1);
    let mut gui = GuiState::new();
    handle_input(&mut gui, &app, InputEvent::Help);
    assert!(matches!(gui.modal, Modal::Help));
    handle_input(&mut gui, &app, InputEvent::Logs);
    assert!(matches!(gui.modal, Modal::Help));
    handle_input(&mut gui, &app, InputEvent::Help);
    assert!(matches!(gui.modal, Modal::Hidden));
    handle_input(&mut gui, &app, InputEvent::Logs);
    match &gui.modal {
        Modal::Logs { id } => assert_eq!(id, "id0"),
        other => panic!("unexpected {other:?}"),
    }
}

#[test]
fn quit_event_raises_shutdown_and_sends_quit() {
    let app = app_with(1);
    let mut gui = GuiState::new();
    let effect = handle_input(&mut gui, &app, InputEvent::Quit);
    assert!(effect.shutdown);
    assert!(matches!(effect.send, Some(DockerMessage::Quit)));
    let effect = handle_input(&mut gui, &app, InputEvent::ForceUpdate);
    assert!(!effect.shutdown);
    assert!(matches!(effect.send, Some(DockerMessage::Update)));
}

#[test]
fn stop_then_update_leaves_running() {
    let mut app = AppData::new();
    app.containers.push(rec("web", "web", ContainerState::Running, 50));
    let mut gui = GuiState::new();
    let step = poller_next(
        false,
        &app,
        Wake::Message(DockerMessage::ContainerAction {
            id: "web".to_string(),
            action: DockerAction::Stop,
        }),
    );
    let (id, action) = match step {
        PollerStep::Run { id, action } => (id, action),
        other => panic!("unexpected {other:?}"),
    };
    assert_eq!(action, DockerAction::Stop);
    let next = apply_action_outcome(&mut app, &mut gui, &id, action, ActionOutcome::Done, 100);
    assert_eq!(next, AfterAction::Reconcile);
    let listing = vec![rec("web", "web", ContainerState::Exited, 0)];
    assert!(apply_list_outcome(&mut app, &mut gui, ListOutcome::Listed(listing), 100));
    assert_eq!(app.containers[0].state, ContainerState::Exited);
    assert!(!app.containers[0].state.is_running());
    match &gui.status[0].status {
        Status::ActionDone { name, action } => {
            assert_eq!(name, "web");
            assert_eq!(*action, DockerAction::Stop);
        }
        other => panic!("unexpected {other:?}"),
    }
    assert_eq!(gui.status[0].status.severity(), Severity::Info);
}

#[test]
fn failed_action_names_container_and_continues() {
    let mut app = AppData::new();
    app.containers.push(rec("abc123", "db", ContainerState::Running, 0));
    let mut gui = GuiState::new();
    let next = apply_action_outcome(
        &mut app,
        &mut gui,
        &"abc123".to_string(),
        DockerAction::Restart,
        ActionOutcome::Failed,
        5,
    );
    assert_eq!(next, AfterAction::Idle);
    assert!(app.error.is_none());
    match &gui.status[0].status {
        Status::ActionFailed { name, action } => {
            assert_eq!(name, "db");
            assert_eq!(*action, DockerAction::Restart);
        }
        other => panic!("unexpected {other:?}"),
    }
    assert_eq!(gui.status[0].status.severity(), Severity::Error);
    assert_eq!(gui.status[0].expires_at, 5);
}

#[test]
fn label_falls_back_to_identifier() {
    let app = app_with(1);
    assert_eq!(container_label(&app, &"id0".to_string()), "c0");
    assert_eq!(container_label(&app, &"gone".to_string()), "gone");
}

#[test]
fn fatal_error_latches() {
    let mut app = app_with(2);
    let mut gui = GuiState::new();
    assert!(!apply_list_outcome(&mut app, &mut gui, ListOutcome::Disconnected, 1));
    assert_eq!(app.get_error(), Some(AppError::ConnectionLost));
    let before = summary(&app.containers);
    let listing = vec![rec("new", "new", ContainerState::Running, 0)];
    assert!(!apply_list_outcome(&mut app, &mut gui, ListOutcome::Listed(listing), 1));
    assert_eq!(summary(&app.containers), before);
    assert!(matches!(poller_next(false, &app, Wake::Tick), PollerStep::Exit));
    assert!(matches!(
        poller_next(
            false,
            &app,
            Wake::Message(DockerMessage::ContainerAction {
                id: "id0".to_string(),
                action: DockerAction::Stop
            })
        ),
        PollerStep::Exit
    ));
    app.set_error(AppError::DockerConnect);
    assert_eq!(app.get_error(), Some(AppError::ConnectionLost));
}

#[test]
fn failed_listing_is_transient() {
    let mut app = app_with(1);
    let mut gui = GuiState::new();
    assert!(apply_list_outcome(&mut app, &mut gui, ListOutcome::Failed, 3));
    assert!(app.error.is_none());
    assert_eq!(app.len(), 1);
    assert!(matches!(gui.status[0].status, Status::UpdateFailed));
}

#[test]
fn shutdown_stops_every_actor() {
    let app = app_with(1);
    let mut gui = GuiState::new();
    assert!(matches!(poller_next(true, &app, Wake::Tick), PollerStep::Exit));
    assert!(matches!(
        poller_next(true, &app, Wake::Message(DockerMessage::Update)),
        PollerStep::Exit
    ));
    assert_eq!(input_next(true, Some(InputEvent::Down)), InputStep::Exit);
    assert_eq!(render_next(true, &app, &mut gui), RenderStep::Exit { code: 0 });
    assert_eq!(headless_next(true, &app), HeadlessStep::Exit { code: 0 });
}

#[test]
fn actors_run_without_shutdown() {
    let app = app_with(1);
    let mut gui = GuiState::new();
    assert!(matches!(poller_next(false, &app, Wake::Tick), PollerStep::Reconcile));
    assert!(matches!(
        poller_next(false, &app, Wake::Message(DockerMessage::Quit)),
        PollerStep::Exit
    ));
    assert!(matches!(poller_next(false, &app, Wake::Closed), PollerStep::Exit));
    assert_eq!(
        input_next(false, Some(InputEvent::Down)),
        InputStep::Handle(InputEvent::Down)
    );
    assert_eq!(input_next(false, None), InputStep::Exit);
    assert_eq!(render_next(false, &app, &mut gui), RenderStep::Draw);
    assert_eq!(headless_next(false, &app), HeadlessStep::SendUpdate);
}

#[test]
fn fatal_error_is_surfaced_then_exits() {
    let mut app = AppData::new();
    app.set_error(AppError::DockerConnect);
    let mut gui = GuiState::new();
    assert_eq!(render_next(false, &app, &mut gui), RenderStep::Draw);
    assert!(matches!(gui.modal, Modal::Error));
    assert_eq!(render_next(false, &app, &mut gui), RenderStep::Exit { code: 1 });
    assert_eq!(headless_next(false, &app), HeadlessStep::Exit { code: 1 });
}

#[test]
fn status_queue_evicts_oldest() {
    let mut gui = GuiState::new();
    let total = STATUS_CAPACITY as u64 + 3;
    for i in 0..total {
        gui.status_push(Status::UpdateFailed, i);
        assert!(gui.status.len() <= STATUS_CAPACITY);
    }
    assert_eq!(gui.status.len(), STATUS_CAPACITY);
    let expiries: Vec<u64> = gui.status.iter().map(|e| e.expires_at).collect();
    let expected: Vec<u64> = (3..total).collect();
    assert_eq!(expiries, expected);
}

#[test]
fn status_expire_drops_old_entries() {
    let mut gui = GuiState::new();
    gui.status_push(Status::UpdateFailed, 10);
    gui.status_push(Status::ConnectionLost, 30);
    gui.status_push(Status::DockerConnect, 20);
    gui.status_expire(20);
    assert_eq!(gui.status.len(), 1);
    assert_eq!(gui.status[0].expires_at, 30);
    gui.status_expire(0);
    assert_eq!(gui.status.len(), 1);
}

#[test]
fn supervisor_spawns_only_when_alive() {
    let mut app = AppData::new();
    let mut gui = GuiState::new();
    assert!(supervise(&mut app, &mut gui, Probe::Alive, 9));
    assert!(app.error.is_none());
    assert!(gui.status.is_empty());
    assert!(!supervise(&mut app, &mut gui, Probe::PingFailed, 9));
    assert_eq!(app.error, Some(AppError::DockerConnect));
    assert!(matches!(gui.status[0].status, Status::DockerConnect));
    let mut app2 = AppData::new();
    let mut gui2 = GuiState::new();
    assert!(!supervise(&mut app2, &mut gui2, Probe::ConnectFailed, 9));
    assert_eq!(app2.error, Some(AppError::DockerConnect));
    assert_eq!(gui2.status.len(), 1);
}

fn env(pairs: &[(&str, &str)]) -> Vec<(String, String)> {
    pairs.iter().map(|(k, v)| (k.to_string(), v.to_string())).collect()
}

#[test]
fn host_prefers_command_line() {
    let e = env(&[("DOCKER_HOST", "/env.sock"), ("DOCKER_HOST", "/second.sock")]);
    assert_eq!(
        resolve_host(Some("/cli.sock".to_string()), &e),
        Some("/cli.sock".to_string())
    );
    assert_eq!(resolve_host(None, &e), Some("/env.sock".to_string()));
    assert_eq!(resolve_host(None, &env(&[("HOME", "/root")])), None);
}

#[test]
fn containerised_flag_from_environment() {
    assert!(is_containerised(&env(&[("A", "b"), ("OXKER_RUNTIME", "container")])));
    assert!(!is_containerised(&env(&[("OXKER_RUNTIME", "host")])));
    assert!(!is_containerised(&env(&[])));
}

#[test]
fn own_container_hidden_when_containerised() {
    let mut own = rec("self", "oxker", ContainerState::Running, 0);
    own.command = "/app/oxker".to_string();
    let listing = vec![rec("a", "a", ContainerState::Running, 0), own];
    let kept = drop_self(
        listing.iter().map(|r| r.duplicate()).collect(),
        true,
    );
    assert_eq!(ids(&kept), vec!["a"]);
    let all = drop_self(listing, false);
    assert_eq!(ids(&all), vec!["a", "self"]);
}

#[test]
fn cpu_usage_values() {
    assert_eq!(cpu_centi_percent(50, 100, 2), 10000);
    assert_eq!(cpu_centi_percent(1, 3, 1), 3333);
    assert_eq!(cpu_centi_percent(5, 0, 4), 0);
    assert_eq!(cpu_centi_percent(u64::MAX, 1, u64::MAX), u64::MAX);
}

#[test]
fn state_names() {
    assert_eq!(ContainerState::from_name(&"running".to_string()), ContainerState::Running);
    assert_eq!(ContainerState::from_name(&"exited".to_string()), ContainerState::Exited);
    assert_eq!(ContainerState::from_name(&"paused".to_string()), ContainerState::Paused);
    assert_eq!(ContainerState::from_name(&"bogus".to_string()), ContainerState::Unknown);
}

#[test]
fn duplicate_copies_every_field() {
    let r = rec("id", "name", ContainerState::Dead, 7);
    let d = r.duplicate();
    assert_eq!(d.id, r.id);
    assert_eq!(d.image, r.image);
    assert_eq!(d.ports, r.ports);
    assert_eq!(d.created, r.created);
    assert_eq!(d.state, ContainerState::Dead);
}

#[test]
fn error_messages_and_verbs() {
    assert_eq!(AppError::DockerConnect.message(), "Unable to access docker daemon");
    assert_eq!(DockerAction::Unpause.verb(), "unpause");
}

#[test]
fn down_from_no_selection_picks_first_row() {
    let app = app_with(3);
    let mut gui = GuiState::new();
    handle_input(&mut gui, &app, InputEvent::Down);
    assert_eq!(gui.selected, Some(0));
    handle_input(&mut gui, &app, InputEvent::Down);
    assert_eq!(gui.selected, Some(1));
}

#[test]
fn cpu_from_counter_samples() {
    assert_eq!(oxker::model::cpu_from_samples(300, 200, 2000, 1000, 4), 4000);
    assert_eq!(oxker::model::cpu_from_samples(100, 200, 2000, 1000, 4), 0);
    assert_eq!(oxker::model::cpu_from_samples(300, 200, 1000, 1000, 4), 0);
}

#[test]
fn disconnect_during_action_is_fatal() {
    let mut app = app_with(1);
    let mut gui = GuiState::new();
    let next = apply_action_outcome(
        &mut app,
        &mut gui,
        &"id0".to_string(),
        DockerAction::Pause,
        ActionOutcome::Disconnected,
        1,
    );
    assert_eq!(next, AfterAction::Exit);
    assert_eq!(app.error, Some(AppError::ConnectionLost));
    assert_eq!(app.len(), 1);
    assert!(matches!(gui.status[0].status, Status::ConnectionLost));
}
