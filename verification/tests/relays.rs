use cm_launcher::relays::{
    compute_mean, get_default_relays, ProbeCommand, ProbeInput, ProbeSession, ProbeStage, Relay,
    RelayNotice, RelayState, ECHO_TIMEOUT_MS, PING_COUNT, PING_PORT, PING_TIMEOUT_MS,
};

fn relay(id: &str) -> Relay {
    Relay { id: id.to_string(), name: id.to_uppercase(), host: format!("{}.example", id) }
}

#[test]
fn default_relays_are_the_configured_nine() {
    let relays = get_default_relays();
    let got: Vec<(&str, &str, &str)> =
        relays.iter().map(|r| (r.id.as_str(), r.name.as_str(), r.host.as_str())).collect();
    assert_eq!(
        got,
        vec![
            ("direct", "Direct", "direct.cm-ss13.com"),
            ("nyc", "NYC", "nyc.cm-ss13.com"),
            ("uk", "UK", "uk.cm-ss13.com"),
            ("eu-e", "EU East", "eu-e.cm-ss13.com"),
            ("eu-w", "EU West", "eu-w.cm-ss13.com"),
            ("aus", "Australia", "aus.cm-ss13.com"),
            ("us-e", "US East", "us-e.cm-ss13.com"),
            ("us-w", "US West", "us-w.cm-ss13.com"),
            ("asia-se", "SE Asia", "asia-se.cm-ss13.com"),
        ]
    );
}

#[test]
fn fresh_state_is_unprobed_and_unselected() {
    let state = RelayState::new();
    assert_eq!(state.get_relays().len(), 9);
    assert!(state.get_relays().iter().all(|r| r.checking && r.ping.is_none()));
    assert_eq!(state.get_selected(), "");
    assert_eq!(state.get_selected_host(), None);
    assert!(!state.all_relays_pinged());
    assert!(RelayState::with_relays(Vec::new()).all_relays_pinged());
}

#[test]
fn probe_round_completes_in_any_order() {
    let mut state = RelayState::new();
    let ids = ["us-w", "direct", "asia-se", "uk", "nyc", "eu-w", "aus", "eu-e", "us-e"];
    for (i, id) in ids.iter().enumerate() {
        assert!(!state.all_relays_pinged());
        let ping = if i % 3 == 0 { None } else { Some(100 + i as u32) };
        state.record_probe(id, ping);
    }
    assert!(state.all_relays_pinged());
    let relays = state.get_relays();
    assert_eq!(relays.len(), 9);
    assert!(relays.iter().all(|r| !r.checking));
    assert_eq!(relays.iter().find(|r| r.relay.id == "us-w").unwrap().ping, None);
    assert_eq!(relays.iter().find(|r| r.relay.id == "direct").unwrap().ping, Some(101));
}

#[test]
fn round_of_unreachable_relays_completes_without_selection() {
    let mut state = RelayState::with_relays(vec![relay("a"), relay("b")]);
    assert_eq!(state.record_probe("a", None), None);
    assert_eq!(state.record_probe("b", None), None);
    assert!(state.all_relays_pinged());
    assert_eq!(state.get_selected(), "");
    assert_eq!(state.get_selected_host(), None);
}

#[test]
fn best_latency_wins_and_ties_keep_current() {
    let mut state = RelayState::with_relays(vec![relay("a"), relay("b"), relay("c"), relay("d")]);
    assert_eq!(state.record_probe("a", Some(80)), Some("a".to_string()));
    assert_eq!(state.get_selected(), "a");
    assert_eq!(state.record_probe("b", Some(80)), None);
    assert_eq!(state.get_selected(), "a");
    assert_eq!(state.record_probe("c", Some(120)), None);
    assert_eq!(state.get_selected(), "a");
    assert_eq!(state.record_probe("d", Some(79)), Some("d".to_string()));
    assert_eq!(state.get_selected(), "d");
    assert_eq!(state.get_selected_host(), Some("d.example".to_string()));
}

#[test]
fn selection_moves_when_selected_relay_lost_its_latency() {
    let mut state = RelayState::with_relays(vec![relay("a"), relay("b")]);
    state.record_probe("a", Some(10));
    assert_eq!(state.get_selected(), "a");
    assert_eq!(state.record_probe("a", None), None);
    assert_eq!(state.get_selected(), "a");
    assert_eq!(state.record_probe("b", Some(500)), Some("b".to_string()));
    assert_eq!(state.get_selected(), "b");
}

#[test]
fn reprobe_of_selected_relay_keeps_it() {
    let mut state = RelayState::with_relays(vec![relay("a"), relay("b")]);
    state.record_probe("a", Some(10));
    assert_eq!(state.record_probe("a", Some(5)), None);
    assert_eq!(state.record_probe("a", Some(50)), None);
    assert_eq!(state.get_selected(), "a");
    assert_eq!(state.record_probe("b", Some(49)), Some("b".to_string()));
}

#[test]
fn manual_selection_is_not_validated() {
    let mut state = RelayState::with_relays(vec![relay("a")]);
    state.set_selected("nowhere".to_string());
    assert_eq!(state.get_selected(), "nowhere");
    assert_eq!(state.get_selected_host(), None);
    assert_eq!(state.record_probe("a", Some(7)), Some("a".to_string()));
    assert_eq!(state.get_selected_host(), Some("a.example".to_string()));
    state.set_selected("a".to_string());
    assert_eq!(state.get_selected_host(), Some("a.example".to_string()));
}

#[test]
fn result_for_unknown_relay_changes_nothing() {
    let mut state = RelayState::with_relays(vec![relay("a")]);
    assert_eq!(state.record_probe("ghost", Some(1)), None);
    assert_eq!(state.get_selected(), "");
    assert!(!state.all_relays_pinged());
    state.update_relay_ping("ghost", Some(1));
    assert!(state.get_relays()[0].checking);
    state.update_relay_ping("a", Some(3));
    assert_eq!(state.get_relays()[0].ping, Some(3));
    assert!(!state.get_relays()[0].checking);
    assert_eq!(state.get_selected(), "");
}

#[test]
fn mean_is_rounded_down() {
    assert_eq!(compute_mean(&vec![]), None);
    assert_eq!(compute_mean(&vec![7]), Some(7));
    assert_eq!(compute_mean(&vec![10, 11]), Some(10));
    assert_eq!(compute_mean(&vec![1, 2, 3, 4, 5, 6, 7, 8, 9, 10]), Some(5));
    assert_eq!(compute_mean(&vec![u32::MAX, u32::MAX, u32::MAX]), Some(u32::MAX));
    assert_eq!(compute_mean(&vec![u32::MAX, 0]), Some(u32::MAX / 2));
}

#[test]
fn probe_constants() {
    assert_eq!(PING_PORT, 4000);
    assert_eq!(PING_COUNT, 10);
    assert_eq!(PING_TIMEOUT_MS, 5000);
    assert_eq!(ECHO_TIMEOUT_MS, 2000);
}

fn connected() -> ProbeSession {
    let (session, command) = ProbeSession::begin("nyc.cm-ss13.com");
    match command {
        ProbeCommand::Connect { url, timeout_ms } => {
            assert_eq!(url, "wss://nyc.cm-ss13.com:4000");
            assert_eq!(timeout_ms, 5000);
        }
        other => panic!("unexpected command {:?}", other),
    }
    let (session, command) = session.step(ProbeInput::Connected(true));
    match command {
        ProbeCommand::Send { text, timeout_ms } => {
            assert_eq!(text, "1");
            assert_eq!(timeout_ms, 2000);
        }
        other => panic!("unexpected command {:?}", other),
    }
    session
}

#[test]
fn probe_of_ten_echoes_gives_the_mean() {
    let mut session = connected();
    for i in 1..=10u32 {
        let (next, command) =
            session.step(ProbeInput::Reply { text: Some(i.to_string()), elapsed_ms: 10 * i });
        session = next;
        if i < 10 {
            match command {
                ProbeCommand::Send { text, .. } => assert_eq!(text, (i + 1).to_string()),
                other => panic!("unexpected command {:?}", other),
            }
        } else {
            match command {
                ProbeCommand::Finish { close, latency } => {
                    assert!(close);
                    assert_eq!(latency, Some(55));
                }
                other => panic!("unexpected command {:?}", other),
            }
        }
    }
    assert_eq!(session.stage, ProbeStage::Finished);
    assert_eq!(session.samples.len(), 10);
}

#[test]
fn unreachable_relay_has_no_latency() {
    let (session, _) = ProbeSession::begin("h");
    let (session, command) = session.step(ProbeInput::Connected(false));
    assert!(matches!(command, ProbeCommand::Finish { close: false, latency: None }));
    assert_eq!(session.stage, ProbeStage::Finished);
}

#[test]
fn wrong_echo_ends_the_probe_with_what_was_measured() {
    let session = connected();
    let (session, _) = session.step(ProbeInput::Reply { text: Some("1".to_string()), elapsed_ms: 30 });
    let (session, _) = session.step(ProbeInput::Reply { text: Some("2".to_string()), elapsed_ms: 50 });
    let (session, command) =
        session.step(ProbeInput::Reply { text: Some("2".to_string()), elapsed_ms: 1 });
    assert!(matches!(command, ProbeCommand::Finish { close: true, latency: Some(40) }));
    assert_eq!(session.stage, ProbeStage::Finished);

    let session = connected();
    let (_, command) = session.step(ProbeInput::Reply { text: Some("01".to_string()), elapsed_ms: 5 });
    assert!(matches!(command, ProbeCommand::Finish { close: true, latency: None }));
}

#[test]
fn timeout_or_send_failure_ends_the_probe() {
    let session = connected();
    let (session, _) = session.step(ProbeInput::Reply { text: Some("1".to_string()), elapsed_ms: 9 });
    let (_, command) = session.step(ProbeInput::Reply { text: None, elapsed_ms: 2000 });
    assert!(matches!(command, ProbeCommand::Finish { close: true, latency: Some(9) }));

    let session = connected();
    let (session, command) = session.step(ProbeInput::SendFailed);
    assert!(matches!(command, ProbeCommand::Finish { close: true, latency: None }));
    let (_, command) = session.step(ProbeInput::Connected(true));
    assert!(matches!(command, ProbeCommand::Finish { close: false, latency: None }));
}

#[test]
fn completed_probe_tells_selection_then_list() {
    let mut state = RelayState::with_relays(vec![relay("a"), relay("b")]);
    let notices = state.probe_completed("a", Some(30));
    assert_eq!(notices.len(), 2);
    match (&notices[0], &notices[1]) {
        (RelayNotice::Selected(id), RelayNotice::Updated(relays)) => {
            assert_eq!(id, "a");
            assert_eq!(relays.len(), 2);
            assert_eq!(relays[0].ping, Some(30));
            assert!(!relays[0].checking);
            assert!(relays[1].checking);
        }
        other => panic!("unexpected notices {:?}", other),
    }
    let notices = state.probe_completed("b", None);
    assert_eq!(notices.len(), 1);
    match &notices[0] {
        RelayNotice::Updated(relays) => assert!(relays.iter().all(|r| !r.checking)),
        other => panic!("unexpected notice {:?}", other),
    }
    assert_eq!(state.get_selected(), "a");
    let notices = state.probe_completed("ghost", Some(1));
    assert_eq!(notices.len(), 1);
}
