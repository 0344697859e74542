use shorty::pipeline::{Action, ClientStage, Event, Phase, Pipeline};

fn run(events: &[Event]) -> (Pipeline, Vec<Action>) {
    let mut state = Pipeline::new();
    let mut actions = Vec::new();
    for event in events {
        let (next, action) = state.step(*event);
        state = next;
        actions.push(action);
    }
    (state, actions)
}

const ALL: [Event; 8] = [
    Event::ConfigLoaded,
    Event::ConfigFailed,
    Event::ClientBuilt,
    Event::ClientFailed,
    Event::SourceResolved,
    Event::SourceFailed,
    Event::WriteFinished,
    Event::WriteFailed,
];

#[test]
fn new_upload_has_nothing_done() {
    let state = Pipeline::new();
    assert_eq!(state.phase, Phase::Preparing);
    assert_eq!(state.client, ClientStage::AwaitingConfig);
    assert!(!state.source_ready);
}

#[test]
fn client_first_then_source() {
    let (state, actions) = run(&[
        Event::ConfigLoaded,
        Event::ClientBuilt,
        Event::SourceResolved,
        Event::WriteFinished,
    ]);
    assert_eq!(
        actions,
        vec![Action::BuildClient, Action::Wait, Action::Write, Action::Finish]
    );
    assert_eq!(state.phase, Phase::Finished);
}

#[test]
fn source_first_then_client() {
    let (state, actions) = run(&[
        Event::SourceResolved,
        Event::ConfigLoaded,
        Event::ClientBuilt,
        Event::WriteFinished,
    ]);
    assert_eq!(
        actions,
        vec![Action::Wait, Action::BuildClient, Action::Write, Action::Finish]
    );
    assert_eq!(state.phase, Phase::Finished);
}

#[test]
fn source_between_settings_and_client() {
    let (_, actions) = run(&[Event::ConfigLoaded, Event::SourceResolved, Event::ClientBuilt]);
    assert_eq!(actions, vec![Action::BuildClient, Action::Wait, Action::Write]);
}

#[test]
fn missing_settings_end_the_upload() {
    let (state, actions) = run(&[
        Event::ConfigFailed,
        Event::SourceResolved,
        Event::ConfigLoaded,
        Event::ClientBuilt,
    ]);
    assert_eq!(actions, vec![Action::Abort, Action::Wait, Action::Wait, Action::Wait]);
    assert_eq!(state.phase, Phase::Failed);
}

#[test]
fn failed_client_ends_the_upload() {
    let (state, actions) = run(&[Event::ConfigLoaded, Event::ClientFailed, Event::SourceResolved]);
    assert_eq!(actions, vec![Action::BuildClient, Action::Abort, Action::Wait]);
    assert_eq!(state.phase, Phase::Failed);
}

#[test]
fn failed_source_ends_the_upload() {
    let (state, actions) = run(&[Event::ConfigLoaded, Event::SourceFailed, Event::ClientBuilt]);
    assert_eq!(actions, vec![Action::BuildClient, Action::Abort, Action::Wait]);
    assert_eq!(state.phase, Phase::Failed);
}

#[test]
fn failed_write_is_reported() {
    let (state, actions) = run(&[
        Event::ConfigLoaded,
        Event::ClientBuilt,
        Event::SourceResolved,
        Event::WriteFailed,
    ]);
    assert_eq!(actions[3], Action::Abort);
    assert_eq!(state.phase, Phase::Failed);
}

#[test]
fn client_is_not_built_before_the_settings() {
    let (state, actions) = run(&[Event::ClientBuilt, Event::SourceResolved]);
    assert_eq!(actions, vec![Action::Wait, Action::Wait]);
    assert_eq!(state.client, ClientStage::AwaitingConfig);
    assert_eq!(state.phase, Phase::Preparing);
}

#[test]
fn repeated_reports_change_nothing() {
    let (state, actions) = run(&[
        Event::ConfigLoaded,
        Event::ConfigLoaded,
        Event::SourceResolved,
        Event::SourceResolved,
        Event::ClientBuilt,
        Event::ClientBuilt,
        Event::SourceResolved,
    ]);
    assert_eq!(
        actions,
        vec![
            Action::BuildClient,
            Action::Wait,
            Action::Wait,
            Action::Wait,
            Action::Write,
            Action::Wait,
            Action::Wait
        ]
    );
    assert_eq!(state.phase, Phase::Writing);
}

#[test]
fn every_short_run_writes_at_most_once_and_only_when_ready() {
    let mut run_of = [0usize; 5];
    loop {
        let events: Vec<Event> = run_of.iter().map(|i| ALL[*i]).collect();
        let (_, actions) = run(&events);
        let writes: Vec<usize> =
            (0..actions.len()).filter(|i| actions[*i] == Action::Write).collect();
        assert!(writes.len() <= 1);
        for at in writes {
            assert!(events[..=at].contains(&Event::ConfigLoaded));
            assert!(events[..=at].contains(&Event::ClientBuilt));
            assert!(events[..=at].contains(&Event::SourceResolved));
        }
        let mut place = 0;
        while place < run_of.len() {
            run_of[place] += 1;
            if run_of[place] < ALL.len() {
                break;
            }
            run_of[place] = 0;
            place += 1;
        }
        if place == run_of.len() {
            break;
        }
    }
}
