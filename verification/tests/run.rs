use device_restart::action::{
    property_change_request, DeviceStateChangeAction, INSTALL_FUNCTION_PROPERTY_CHANGE,
    SCOPE_GLOBAL,
};
use device_restart::message::{message_text, Message, Severity};
use device_restart::orchestrate::{Command, Event, Orchestrator, Phase};

fn drive(events: Vec<Event>) -> (Vec<Command>, Phase) {
    let (mut orch, first) = Orchestrator::start();
    assert_eq!(first, Command::OpenSet);
    let mut commands = Vec::new();
    for event in events {
        let (next_orch, command) = orch.step(event).expect("event must fit the phase");
        commands.push(command);
        orch = next_orch;
    }
    (commands, orch.phase)
}

fn close_count(commands: &[Command]) -> usize {
    commands.iter().filter(|c| matches!(c, Command::CloseSet)).count()
}

#[test]
fn run_success_path() {
    let (commands, end) = drive(vec![
        Event::OpenSucceeded,
        Event::DeviceFound,
        Event::ChangeSucceeded,
        Event::Acknowledged,
        Event::Acknowledged,
    ]);
    assert_eq!(
        commands,
        vec![
            Command::FindDevice,
            Command::ChangeState(DeviceStateChangeAction::Restart),
            Command::Show(Message::Restarted, Severity::Info),
            Command::CloseSet,
            Command::Exit(true),
        ]
    );
    assert_eq!(end, Phase::Finished { success: true });
    assert_eq!(close_count(&commands), 1);
}

#[test]
fn run_not_found_path() {
    let (commands, end) = drive(vec![
        Event::OpenSucceeded,
        Event::DeviceNotFound,
        Event::Acknowledged,
        Event::Acknowledged,
    ]);
    assert_eq!(
        commands,
        vec![
            Command::FindDevice,
            Command::Show(Message::NotFound, Severity::Alert),
            Command::CloseSet,
            Command::Exit(false),
        ]
    );
    assert_eq!(end, Phase::Finished { success: false });
    assert_eq!(close_count(&commands), 1);
}

#[test]
fn run_change_failed_path() {
    let error = String::from("The installer refused the request");
    let (commands, end) = drive(vec![
        Event::OpenSucceeded,
        Event::DeviceFound,
        Event::ChangeFailed(error.clone()),
        Event::Acknowledged,
        Event::Acknowledged,
    ]);
    assert_eq!(
        commands,
        vec![
            Command::FindDevice,
            Command::ChangeState(DeviceStateChangeAction::Restart),
            Command::CloseSet,
            Command::Show(Message::Failure(error.clone()), Severity::Alert),
            Command::Exit(false),
        ]
    );
    assert_eq!(end, Phase::Finished { success: false });
    assert_eq!(close_count(&commands), 1);
    let shown = message_text(&Message::Failure(error.clone()));
    assert!(shown.contains(&error));
}

#[test]
fn run_find_failed_path() {
    let error = String::from("enumeration failed");
    let (commands, end) = drive(vec![
        Event::OpenSucceeded,
        Event::FindFailed(error.clone()),
        Event::Acknowledged,
        Event::Acknowledged,
    ]);
    assert_eq!(
        commands,
        vec![
            Command::FindDevice,
            Command::CloseSet,
            Command::Show(Message::Failure(error), Severity::Alert),
            Command::Exit(false),
        ]
    );
    assert_eq!(end, Phase::Finished { success: false });
    assert_eq!(close_count(&commands), 1);
}

#[test]
fn run_open_failed_path_never_closes() {
    let error = String::from("cannot create device list");
    let (commands, end) = drive(vec![Event::OpenFailed(error.clone()), Event::Acknowledged]);
    assert_eq!(
        commands,
        vec![
            Command::Show(Message::Failure(error), Severity::Alert),
            Command::Exit(false),
        ]
    );
    assert_eq!(end, Phase::Finished { success: false });
    assert_eq!(close_count(&commands), 0);
}

#[test]
fn step_rejects_event_that_does_not_fit() {
    let (orch, _) = Orchestrator::start();
    assert!(orch.step(Event::Acknowledged).is_none());
}

#[test]
fn finished_run_takes_no_more_events() {
    let (orch, _) = Orchestrator::start();
    let (orch, _) = orch.step(Event::OpenFailed(String::from("x"))).unwrap();
    let (orch, _) = orch.step(Event::Acknowledged).unwrap();
    assert_eq!(orch.phase, Phase::Finished { success: false });
    assert!(orch.step(Event::Acknowledged).is_none());
}

#[test]
fn action_codes_are_fixed() {
    assert_eq!(DeviceStateChangeAction::Enable.code(), 1);
    assert_eq!(DeviceStateChangeAction::Disable.code(), 2);
    assert_eq!(DeviceStateChangeAction::Restart.code(), 3);
}

#[test]
fn restart_request_is_property_change_global() {
    let request = property_change_request(DeviceStateChangeAction::Restart);
    assert_eq!(request.install_function, INSTALL_FUNCTION_PROPERTY_CHANGE);
    assert_eq!(request.install_function, 18);
    assert_eq!(request.scope, SCOPE_GLOBAL);
    assert_eq!(request.scope, 1);
    assert_eq!(request.state_change, 3);
}

#[test]
fn message_texts_are_exact() {
    assert_eq!(message_text(&Message::NotFound), "Could not find device");
    assert_eq!(message_text(&Message::Restarted), "Restarted successfully");
    assert_eq!(
        message_text(&Message::Failure(String::from("access denied"))),
        "An error has occurred:\r\n\r\naccess denied"
    );
}
