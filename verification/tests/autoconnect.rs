use cm_launcher::autoconnect::{
    check_and_start_autoconnect, get_steam_access_token, perform_autoconnect, steam_to_credential,
    tokens_to_credential, AutoConnect, AutoConnectEvent, AutoConnectStatus, Command, Input, Phase,
    Step, RELAY_POLL_INTERVAL_MS, RELAY_POLL_LIMIT,
};
use cm_launcher::byond::ConnectionResult;
use cm_launcher::servers::Server;
use cm_launcher::settings::AuthMode;
use cm_launcher::steam::SteamAuthResult;

fn server(name: &str, url: &str, status: &str, version: Option<&str>) -> Server {
    Server {
        name: name.to_string(),
        url: url.to_string(),
        status: status.to_string(),
        data: None,
        recommended_byond_version: version.map(|v| v.to_string()),
    }
}

fn alpha() -> Vec<Server> {
    vec![server("Alpha Colony", "byond://host:2025", "available", Some("516.1684"))]
}

fn statuses(events: &[AutoConnectEvent]) -> Vec<AutoConnectStatus> {
    events.iter().map(|e| e.status).collect()
}

fn begin(name: &str) -> Step {
    let step = AutoConnect::new(name.to_string()).step(Input::Begin);
    assert_eq!(statuses(&step.emitted), vec![AutoConnectStatus::Starting]);
    assert_eq!(step.emitted[0].server_name, name);
    assert_eq!(step.emitted[0].message, None);
    assert!(matches!(step.command, Command::FetchServers));
    step
}

fn expect_stop(step: &Step, status: AutoConnectStatus, message: Option<&str>) {
    assert!(matches!(step.command, Command::Stop));
    assert!(step.machine.is_finished());
    let last = step.emitted.last().unwrap();
    assert_eq!(last.status, status);
    assert_eq!(last.message.as_deref(), message);
}

fn to_settings(name: &str, servers: Vec<Server>) -> Step {
    let step = begin(name).machine.step(Input::Servers(Some(servers)));
    assert!(step.emitted.is_empty());
    assert!(matches!(step.command, Command::LoadSettings));
    step
}

fn to_relays(name: &str) -> Step {
    let step = to_settings(name, alpha()).machine.step(Input::Settings(Some(AuthMode::Byond)));
    assert!(matches!(step.command, Command::LocateRelays));
    let step = step.machine.step(Input::RelaysLocated(true));
    assert_eq!(statuses(&step.emitted), vec![AutoConnectStatus::WaitingForRelays]);
    assert!(matches!(step.command, Command::PollRelays { delay_ms: 0 }));
    step
}

#[test]
fn normalized_name_resolves_port_and_version() {
    let step = to_settings("Alpha+Colony", alpha());
    assert_eq!(step.machine.port, "2025");
    assert_eq!(step.machine.version, "516.1684");
    assert_eq!(step.machine.server_name, "Alpha+Colony");
    let step = to_settings("alpha+COLONY", alpha());
    assert_eq!(step.machine.port, "2025");
    assert_eq!(step.machine.version, "516.1684");
}

#[test]
fn full_run_connects() {
    let step = to_relays("Alpha+Colony");
    let step = step.machine.step(Input::RelaysPolled(false));
    assert!(step.emitted.is_empty());
    assert!(matches!(step.command, Command::PollRelays { delay_ms: RELAY_POLL_INTERVAL_MS }));
    let step = step.machine.step(Input::RelaysPolled(true));
    assert!(matches!(step.command, Command::ResolveRelayHost));
    let step = step.machine.step(Input::RelayHost(Some("nyc.cm-ss13.com".to_string())));
    assert_eq!(statuses(&step.emitted), vec![AutoConnectStatus::Connecting]);
    match &step.command {
        Command::Connect(request) => {
            assert_eq!(request.version, "516.1684");
            assert_eq!(request.host, "nyc.cm-ss13.com");
            assert_eq!(request.port, "2025");
            assert_eq!(request.access_type.as_deref(), Some("byond"));
            assert_eq!(request.access_token, None);
            assert_eq!(request.server_name, "Alpha+Colony");
            assert_eq!(request.map_name, None);
            assert_eq!(request.source.as_deref(), Some("autoconnect"));
        }
        other => panic!("unexpected command {:?}", other),
    }
    let step = step.machine.step(Input::Launched(Ok(ConnectionResult {
        success: true,
        message: "Connecting".to_string(),
        auth_error: None,
    })));
    assert_eq!(statuses(&step.emitted), vec![AutoConnectStatus::Connected]);
    expect_stop(&step, AutoConnectStatus::Connected, None);
}

#[test]
fn offline_server_ends_at_unavailable() {
    let servers = vec![server("Alpha Colony", "host:2025", "offline", Some("516.1684"))];
    let step = begin("Alpha Colony").machine.step(Input::Servers(Some(servers)));
    assert_eq!(statuses(&step.emitted), vec![AutoConnectStatus::ServerUnavailable]);
    expect_stop(
        &step,
        AutoConnectStatus::ServerUnavailable,
        Some("Server \"Alpha Colony\" is currently unavailable"),
    );
    assert!(step.emitted[0].message.as_ref().unwrap().contains("Alpha Colony"));
    let after = step.machine.step(Input::Settings(Some(AuthMode::Steam)));
    assert!(after.emitted.is_empty());
    assert!(matches!(after.command, Command::Stop));
    assert_eq!(after.machine.phase, Phase::Finished);
}

#[test]
fn status_must_be_exactly_available() {
    for status in ["Available", "available ", "", "online"] {
        let servers = vec![server("A", "h:1", status, Some("1.2"))];
        let step = begin("A").machine.step(Input::Servers(Some(servers)));
        assert_eq!(statuses(&step.emitted), vec![AutoConnectStatus::ServerUnavailable]);
    }
}

#[test]
fn relays_that_never_finish_time_out() {
    let mut step = to_relays("Alpha Colony");
    let mut polls = 0;
    loop {
        assert!(!matches!(step.command, Command::Connect(_)));
        if step.machine.is_finished() {
            break;
        }
        match step.command {
            Command::PollRelays { delay_ms } => {
                assert_eq!(delay_ms, if polls == 0 { 0 } else { 500 });
            }
            ref other => panic!("unexpected command {:?}", other),
        }
        polls += 1;
        step = step.machine.step(Input::RelaysPolled(false));
    }
    assert_eq!(polls, 60);
    assert_eq!(polls, RELAY_POLL_LIMIT);
    assert_eq!(statuses(&step.emitted), vec![AutoConnectStatus::Error]);
    expect_stop(&step, AutoConnectStatus::Error, Some("Timed out waiting for relays"));
}

#[test]
fn relays_ready_at_the_last_poll_still_connect() {
    let mut step = to_relays("Alpha Colony");
    for _ in 0..59 {
        step = step.machine.step(Input::RelaysPolled(false));
        assert!(matches!(step.command, Command::PollRelays { delay_ms: 500 }));
    }
    let step = step.machine.step(Input::RelaysPolled(true));
    assert!(matches!(step.command, Command::ResolveRelayHost));
}

#[test]
fn empty_directory_reports_waiting_then_error() {
    let step = begin("A").machine.step(Input::Servers(Some(Vec::new())));
    assert_eq!(
        statuses(&step.emitted),
        vec![AutoConnectStatus::WaitingForServers, AutoConnectStatus::Error]
    );
    assert_eq!(step.emitted[0].message, None);
    expect_stop(&step, AutoConnectStatus::Error, Some("No servers available"));
}

#[test]
fn missing_directory_state_is_an_error() {
    let step = begin("A").machine.step(Input::Servers(None));
    expect_stop(&step, AutoConnectStatus::Error, Some("Server state not available"));
}

#[test]
fn unknown_server_is_not_found() {
    let step = begin("Beta").machine.step(Input::Servers(Some(alpha())));
    assert_eq!(statuses(&step.emitted), vec![AutoConnectStatus::ServerNotFound]);
    expect_stop(&step, AutoConnectStatus::ServerNotFound, Some("Server \"Beta\" not found"));
}

#[test]
fn server_without_port_or_version_is_an_error() {
    let servers = vec![server("A", "hostonly", "available", Some("1.2"))];
    let step = begin("A").machine.step(Input::Servers(Some(servers)));
    expect_stop(&step, AutoConnectStatus::Error, Some("Invalid server configuration"));
    let servers = vec![server("A", "host:1", "available", None)];
    let step = begin("A").machine.step(Input::Servers(Some(servers)));
    expect_stop(&step, AutoConnectStatus::Error, Some("No BYOND version specified"));
}

#[test]
fn settings_that_cannot_be_loaded_are_an_error() {
    let step = to_settings("Alpha Colony", alpha()).machine.step(Input::Settings(None));
    expect_stop(&step, AutoConnectStatus::Error, Some("Failed to load settings"));
}

#[test]
fn first_party_mode_needs_a_fresh_token() {
    let step = to_settings("Alpha Colony", alpha())
        .machine
        .step(Input::Settings(Some(AuthMode::CmSs13)));
    assert!(matches!(step.command, Command::ReadTokens));
    let ok = step
        .machine
        .step(Input::Tokens { tokens: Ok(Some("tok".to_string())), expired: false });
    assert!(matches!(ok.command, Command::LocateRelays));
    assert_eq!(ok.machine.access_type.as_deref(), Some("cm_ss13"));
    assert_eq!(ok.machine.access_token.as_deref(), Some("tok"));

    for (tokens, expired) in [(Ok(Some("tok".to_string())), true), (Ok(None), false)] {
        let step = to_settings("Alpha Colony", alpha())
            .machine
            .step(Input::Settings(Some(AuthMode::CmSs13)));
        let step = step.machine.step(Input::Tokens { tokens, expired });
        assert_eq!(statuses(&step.emitted), vec![AutoConnectStatus::AuthRequired]);
        expect_stop(&step, AutoConnectStatus::AuthRequired, Some("Please log in to continue"));
    }

    let step = to_settings("Alpha Colony", alpha())
        .machine
        .step(Input::Settings(Some(AuthMode::CmSs13)));
    let step = step
        .machine
        .step(Input::Tokens { tokens: Err("keyring locked".to_string()), expired: false });
    expect_stop(&step, AutoConnectStatus::Error, Some("keyring locked"));
}

fn steam(
    success: bool,
    token: Option<&str>,
    linking: bool,
    url: Option<&str>,
    error: Option<&str>,
) -> SteamAuthResult {
    SteamAuthResult {
        success,
        access_token: token.map(|s| s.to_string()),
        requires_linking: linking,
        linking_url: url.map(|s| s.to_string()),
        error: error.map(|s| s.to_string()),
    }
}

fn to_steam() -> Step {
    let step = to_settings("Alpha Colony", alpha())
        .machine
        .step(Input::Settings(Some(AuthMode::Steam)));
    assert!(matches!(step.command, Command::AuthenticateSteam));
    step
}

#[test]
fn steam_mode_branches() {
    let step = to_steam()
        .machine
        .step(Input::Steam(Some(Ok(steam(true, Some("st"), false, None, None)))));
    assert!(matches!(step.command, Command::LocateRelays));
    assert_eq!(step.machine.access_type.as_deref(), Some("steam"));
    assert_eq!(step.machine.access_token.as_deref(), Some("st"));

    let step = to_steam().machine.step(Input::Steam(Some(Ok(steam(
        false,
        None,
        true,
        Some("https://link.example/x"),
        None,
    )))));
    assert_eq!(statuses(&step.emitted), vec![AutoConnectStatus::SteamLinkingRequired]);
    expect_stop(
        &step,
        AutoConnectStatus::SteamLinkingRequired,
        Some("Steam account linking required"),
    );
    assert_eq!(step.emitted[0].linking_url.as_deref(), Some("https://link.example/x"));

    let step = to_steam()
        .machine
        .step(Input::Steam(Some(Ok(steam(false, None, true, None, None)))));
    assert_eq!(step.emitted[0].status, AutoConnectStatus::SteamLinkingRequired);
    assert_eq!(step.emitted[0].linking_url, None);

    let step = to_steam().machine.step(Input::Steam(Some(Ok(steam(
        false,
        None,
        true,
        Some(""),
        Some("AUTH_REQUIRED"),
    )))));
    assert_eq!(step.emitted[0].status, AutoConnectStatus::SteamLinkingRequired);
    assert_eq!(step.emitted[0].linking_url.as_deref(), Some(""));

    let step = to_steam()
        .machine
        .step(Input::Steam(Some(Ok(steam(false, None, false, None, Some("banned"))))));
    expect_stop(&step, AutoConnectStatus::Error, Some("banned"));
    assert_eq!(step.emitted[0].linking_url, None);

    let step = to_steam()
        .machine
        .step(Input::Steam(Some(Ok(steam(false, None, false, None, None)))));
    expect_stop(&step, AutoConnectStatus::Error, Some("Steam authentication failed"));

    let step = to_steam().machine.step(Input::Steam(Some(Err("network".to_string()))));
    expect_stop(&step, AutoConnectStatus::Error, Some("network"));

    let step = to_steam().machine.step(Input::Steam(None));
    expect_stop(&step, AutoConnectStatus::Error, Some("Steam not available"));
}

#[test]
fn relay_failures_are_errors() {
    let step = to_settings("Alpha Colony", alpha())
        .machine
        .step(Input::Settings(Some(AuthMode::Byond)));
    let step = step.machine.step(Input::RelaysLocated(false));
    expect_stop(&step, AutoConnectStatus::Error, Some("Relay state not available"));

    let step = to_relays("Alpha Colony").machine.step(Input::RelaysPolled(true));
    let step = step.machine.step(Input::RelayHost(None));
    expect_stop(&step, AutoConnectStatus::Error, Some("No relay available"));
}

fn to_connecting() -> Step {
    let step = to_relays("Alpha Colony").machine.step(Input::RelaysPolled(true));
    step.machine.step(Input::RelayHost(Some("h".to_string())))
}

#[test]
fn launch_failures_are_errors() {
    let step = to_connecting().machine.step(Input::Launched(Ok(ConnectionResult {
        success: false,
        message: "Connection already in progress".to_string(),
        auth_error: None,
    })));
    expect_stop(&step, AutoConnectStatus::Error, Some("Connection already in progress"));
    let step = to_connecting().machine.step(Input::Launched(Err("boom".to_string())));
    expect_stop(&step, AutoConnectStatus::Error, Some("boom"));
}

#[test]
fn stray_reports_repeat_the_pending_command() {
    let step = begin("A").machine.step(Input::RelaysPolled(true));
    assert!(step.emitted.is_empty());
    assert_eq!(step.machine.phase, Phase::Servers);
    assert!(matches!(step.command, Command::FetchServers));
    assert!(matches!(step.machine.pending_command(), Command::FetchServers));
    let idle = AutoConnect::new("A".to_string()).step(Input::Servers(None));
    assert!(idle.emitted.is_empty());
    assert!(matches!(idle.command, Command::Stop));
    assert_eq!(idle.machine.phase, Phase::Idle);
    let step = to_connecting();
    let again = step.machine.step(Input::Begin);
    assert!(matches!(again.command, Command::Connect(_)));
}

#[test]
fn credentials_from_tokens_and_steam() {
    assert_eq!(
        tokens_to_credential(Ok(Some("t".to_string())), false),
        Ok((Some("cm_ss13".to_string()), Some("t".to_string())))
    );
    assert_eq!(
        tokens_to_credential(Ok(None), false),
        Err("Please log in to continue".to_string())
    );
    assert_eq!(
        tokens_to_credential(Ok(Some("t".to_string())), true),
        Err("Please log in to continue".to_string())
    );
    assert_eq!(tokens_to_credential(Err("e".to_string()), false), Err("e".to_string()));
    assert_eq!(get_steam_access_token(None), Err("Steam not available".to_string()));
    assert_eq!(
        get_steam_access_token(Some(Ok(steam(false, None, true, Some("u"), None)))),
        Err("Steam account linking required".to_string())
    );
    assert_eq!(
        get_steam_access_token(Some(Ok(steam(true, None, false, None, None)))),
        Ok(None)
    );
    assert_eq!(
        steam_to_credential(Some(Ok(steam(true, Some("s"), false, None, None)))),
        Ok((Some("steam".to_string()), Some("s".to_string())))
    );
}

#[test]
fn launch_options_name_the_server() {
    assert!(check_and_start_autoconnect(None).is_none());
    assert!(check_and_start_autoconnect(Some("")).is_none());
    assert!(check_and_start_autoconnect(Some("  \t\n")).is_none());
    let machine = check_and_start_autoconnect(Some("  Alpha+Colony \n")).unwrap();
    assert_eq!(machine.server_name, "Alpha+Colony");
    assert_eq!(machine.phase, Phase::Idle);
}

#[test]
fn whole_run_emits_each_status_once_in_order() {
    let mut seen = Vec::new();
    let mut step = AutoConnect::new("Alpha+Colony".to_string()).step(Input::Begin);
    seen.extend(statuses(&step.emitted));
    let inputs = vec![
        Input::Servers(Some(alpha())),
        Input::Settings(Some(AuthMode::CmSs13)),
        Input::Tokens { tokens: Ok(Some("t".to_string())), expired: false },
        Input::RelaysLocated(true),
        Input::RelaysPolled(false),
        Input::RelaysPolled(true),
        Input::RelayHost(Some("h".to_string())),
        Input::Launched(Ok(ConnectionResult {
            success: true,
            message: String::new(),
            auth_error: None,
        })),
        Input::Begin,
        Input::RelaysPolled(false),
    ];
    for input in inputs {
        step = step.machine.step(input);
        seen.extend(statuses(&step.emitted));
    }
    assert_eq!(
        seen,
        vec![
            AutoConnectStatus::Starting,
            AutoConnectStatus::WaitingForRelays,
            AutoConnectStatus::Connecting,
            AutoConnectStatus::Connected,
        ]
    );
}

#[test]
fn run_for_offline_server_never_asks_for_credentials() {
    let servers = vec![server("Alpha Colony", "host:2025", "offline", Some("516.1684"))];
    let run = perform_autoconnect(
        "Alpha+Colony".to_string(),
        vec![
            Input::Begin,
            Input::Servers(Some(servers)),
            Input::Settings(Some(AuthMode::Steam)),
            Input::Steam(None),
        ],
    );
    assert_eq!(
        statuses(&run.emitted),
        vec![AutoConnectStatus::Starting, AutoConnectStatus::ServerUnavailable]
    );
    assert_eq!(
        run.emitted[1].message.as_deref(),
        Some("Server \"Alpha+Colony\" is currently unavailable")
    );
    assert_eq!(run.commands.len(), 4);
    assert!(matches!(run.commands[0], Command::FetchServers));
    assert!(run.commands[1..].iter().all(|c| matches!(c, Command::Stop)));
    assert!(run.machine.is_finished());
}

#[test]
fn run_with_relays_never_ready_launches_nothing() {
    let mut reports = vec![
        Input::Begin,
        Input::Servers(Some(alpha())),
        Input::Settings(Some(AuthMode::Byond)),
        Input::RelaysLocated(true),
    ];
    for _ in 0..60 {
        reports.push(Input::RelaysPolled(false));
    }
    let run = perform_autoconnect("Alpha Colony".to_string(), reports);
    assert_eq!(
        statuses(&run.emitted),
        vec![
            AutoConnectStatus::Starting,
            AutoConnectStatus::WaitingForRelays,
            AutoConnectStatus::Error
        ]
    );
    assert_eq!(run.emitted[2].message.as_deref(), Some("Timed out waiting for relays"));
    assert!(run.commands.iter().all(|c| !matches!(c, Command::Connect(_))));
    assert!(matches!(run.commands.last(), Some(Command::Stop)));
    assert!(run.machine.is_finished());
    let empty = perform_autoconnect("x".to_string(), Vec::new());
    assert!(empty.emitted.is_empty() && empty.commands.is_empty());
    assert_eq!(empty.machine.phase, Phase::Idle);
}

#[test]
fn failure_text_that_reads_like_a_mark_is_still_an_error() {
    for text in ["AUTH_REQUIRED", "LINKING_REQUIRED:https://x", "LINKING_REQUIRED:", ""] {
        let step = to_steam()
            .machine
            .step(Input::Steam(Some(Ok(steam(false, None, false, Some("u"), Some(text))))));
        assert_eq!(statuses(&step.emitted), vec![AutoConnectStatus::Error]);
        expect_stop(&step, AutoConnectStatus::Error, Some(text));
        assert_eq!(step.emitted[0].linking_url, None);

        let step = to_steam().machine.step(Input::Steam(Some(Err(text.to_string()))));
        expect_stop(&step, AutoConnectStatus::Error, Some(text));
        assert_eq!(step.emitted[0].linking_url, None);

        let step = to_settings("Alpha Colony", alpha())
            .machine
            .step(Input::Settings(Some(AuthMode::CmSs13)));
        let step = step
            .machine
            .step(Input::Tokens { tokens: Err(text.to_string()), expired: true });
        expect_stop(&step, AutoConnectStatus::Error, Some(text));
        assert_eq!(step.emitted[0].linking_url, None);
    }
}

#[test]
fn provider_failure_commands_no_wait_and_no_launch() {
    for answer in [
        steam(false, None, true, Some("https://link"), Some("e")),
        steam(false, None, false, None, Some("e")),
    ] {
        let run = perform_autoconnect(
            "Alpha Colony".to_string(),
            vec![
                Input::Begin,
                Input::Servers(Some(alpha())),
                Input::Settings(Some(AuthMode::Steam)),
                Input::Steam(Some(Ok(answer))),
                Input::RelaysLocated(true),
                Input::RelaysPolled(true),
            ],
        );
        assert!(run.machine.is_finished());
        assert_eq!(run.emitted.len(), 2);
        assert!(run
            .commands
            .iter()
            .all(|c| !matches!(c, Command::PollRelays { .. } | Command::Connect(_) | Command::LocateRelays)));
        for event in &run.emitted {
            if event.status != AutoConnectStatus::SteamLinkingRequired {
                assert_eq!(event.linking_url, None);
            }
        }
    }
}
