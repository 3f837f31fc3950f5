use cm_launcher::byond::{
    auth_failure_result, build_connect_url, check_byond_pager_running, evidence_needed,
    get_auth_for_connection, is_pager_process, launch_result, make_request, parse_connect_url,
    plan_launch, resolve_target, settings_failure, AuthEvidence, ByondVersionInfo,
    ConnectRequest, ConnectionGuard, ConnectionResult, EvidenceKind, Platform,
};
use cm_launcher::servers::{Server, ServerData};
use cm_launcher::settings::AuthMode;
use cm_launcher::steam::SteamAuthResult;

#[test]
fn connect_url_without_parameters() {
    assert_eq!(build_connect_url("host", "2025", None, None, None, None), "byond://host:2025");
    assert_eq!(
        build_connect_url("host", "2025", Some("byond"), None, None, None),
        "byond://host:2025"
    );
    assert_eq!(
        build_connect_url("host", "2025", None, Some("token"), None, None),
        "byond://host:2025"
    );
}

#[test]
fn connect_url_with_parameters_in_order() {
    assert_eq!(
        build_connect_url("h", "1", Some("cm_ss13"), Some("tok"), None, None),
        "byond://h:1?cm_ss13=tok"
    );
    assert_eq!(
        build_connect_url("h", "1", Some("steam"), Some("tok"), Some("8080"), Some("8081")),
        "byond://h:1?steam=tok&launcher_port=8080&websocket_port=8081"
    );
    assert_eq!(
        build_connect_url("h", "1", None, None, None, Some("8081")),
        "byond://h:1?websocket_port=8081"
    );
    assert_eq!(
        build_connect_url("h", "1", Some("byond"), None, Some("9"), None),
        "byond://h:1?launcher_port=9"
    );
}

fn outcome() -> Result<ConnectionResult, String> {
    Ok(ConnectionResult { success: true, message: "done".to_string(), auth_error: None })
}

#[test]
fn guard_lets_exactly_one_attempt_through() {
    let mut guard = ConnectionGuard::new();
    assert!(!guard.is_held());
    let first = guard.enter();
    assert!(first.is_none());
    assert!(guard.is_held());
    let second = guard.enter().unwrap();
    assert!(!second.success);
    assert_eq!(second.message, "Connection already in progress");
    assert!(second.auth_error.is_none());
    assert!(guard.is_held());
    let result = guard.leave(outcome()).unwrap();
    assert!(result.success);
    assert_eq!(result.message, "done");
    assert!(!guard.is_held());
    assert!(guard.enter().is_none());
    assert_eq!(guard.leave(Err("failed".to_string())).unwrap_err(), "failed");
    assert!(!guard.is_held());
}

#[test]
fn guard_shared_by_two_attempts() {
    let guard = std::sync::Mutex::new(ConnectionGuard::new());
    let first = guard.lock().unwrap().enter().map(|r| r.message);
    let second = guard.lock().unwrap().enter().map(|r| r.message);
    let results = vec![first, second];
    assert_eq!(results.iter().filter(|r| r.is_none()).count(), 1);
    assert!(results.contains(&Some("Connection already in progress".to_string())));
    assert!(guard.lock().unwrap().is_held());
    let _ = guard.lock().unwrap().leave(outcome());
    assert!(!guard.lock().unwrap().is_held());
}

#[test]
fn try_acquire_and_release() {
    let mut guard = ConnectionGuard::new();
    assert!(guard.try_acquire());
    assert!(!guard.try_acquire());
    guard.release();
    assert!(guard.try_acquire());
}

#[test]
fn evidence_follows_the_mode() {
    assert_eq!(evidence_needed(AuthMode::CmSs13), EvidenceKind::Tokens);
    assert_eq!(evidence_needed(AuthMode::Steam), EvidenceKind::Steam);
    assert_eq!(evidence_needed(AuthMode::Byond), EvidenceKind::Pager);
}

fn code_of(evidence: AuthEvidence) -> (String, String, Option<String>) {
    let e = get_auth_for_connection(evidence).unwrap_err();
    (e.code, e.message, e.linking_url)
}

fn steam(success: bool, linking: bool, url: Option<&str>, error: Option<&str>) -> SteamAuthResult {
    SteamAuthResult {
        success,
        access_token: if success { Some("st".to_string()) } else { None },
        requires_linking: linking,
        linking_url: url.map(|s| s.to_string()),
        error: error.map(|s| s.to_string()),
    }
}

#[test]
fn credentials_and_coded_failures() {
    assert_eq!(
        get_auth_for_connection(AuthEvidence::Tokens {
            tokens: Ok(Some("t".to_string())),
            expired: false
        })
        .unwrap(),
        (Some("cm_ss13".to_string()), Some("t".to_string()))
    );
    assert_eq!(
        code_of(AuthEvidence::Tokens { tokens: Ok(Some("t".to_string())), expired: true }),
        ("auth_required".to_string(), "Please log in to CM-SS13".to_string(), None)
    );
    assert_eq!(
        code_of(AuthEvidence::Tokens { tokens: Ok(None), expired: false }).0,
        "auth_required"
    );
    assert_eq!(
        code_of(AuthEvidence::Tokens { tokens: Err("broken".to_string()), expired: false }),
        ("token_error".to_string(), "broken".to_string(), None)
    );
    assert_eq!(
        get_auth_for_connection(AuthEvidence::Steam(Some(Ok(steam(true, false, None, None)))))
            .unwrap(),
        (Some("steam".to_string()), Some("st".to_string()))
    );
    assert_eq!(
        code_of(AuthEvidence::Steam(None)),
        ("steam_unavailable".to_string(), "Steam is not available".to_string(), None)
    );
    assert_eq!(
        code_of(AuthEvidence::SteamNotCompiled),
        ("steam_unavailable".to_string(), "Steam support not compiled".to_string(), None)
    );
    assert_eq!(
        code_of(AuthEvidence::Steam(Some(Err("net".to_string())))),
        ("steam_error".to_string(), "net".to_string(), None)
    );
    assert_eq!(
        code_of(AuthEvidence::Steam(Some(Ok(steam(false, true, Some("https://l"), None))))),
        (
            "steam_linking_required".to_string(),
            "Steam account linking required".to_string(),
            Some("https://l".to_string())
        )
    );
    assert_eq!(
        code_of(AuthEvidence::Steam(Some(Ok(steam(false, false, None, Some("no")))))),
        ("steam_auth_failed".to_string(), "no".to_string(), None)
    );
    assert_eq!(
        code_of(AuthEvidence::Steam(Some(Ok(steam(false, false, None, None))))).1,
        "Steam authentication failed"
    );
    assert_eq!(
        get_auth_for_connection(AuthEvidence::Pager { running: true }).unwrap(),
        (Some("byond".to_string()), None)
    );
    assert_eq!(
        code_of(AuthEvidence::Pager { running: false }),
        (
            "byond_pager_not_running".to_string(),
            "BYOND pager is not running. Please open BYOND and log in before connecting."
                .to_string(),
            None
        )
    );
    let e = settings_failure("unreadable".to_string());
    assert_eq!((e.code.as_str(), e.message.as_str()), ("settings_error", "unreadable"));
}

#[test]
fn auth_failure_becomes_an_unsuccessful_result() {
    let e = get_auth_for_connection(AuthEvidence::Pager { running: false }).unwrap_err();
    let r = auth_failure_result(e);
    assert!(!r.success);
    assert!(r.message.starts_with("BYOND pager is not running"));
    assert_eq!(r.auth_error.unwrap().code, "byond_pager_not_running");
}

#[test]
fn pager_is_recognised_in_any_case() {
    assert!(is_pager_process("byond.exe"));
    assert!(is_pager_process("BYOND.EXE"));
    assert!(is_pager_process("Byond.Exe"));
    assert!(!is_pager_process("byond"));
    assert!(!is_pager_process("dreamseeker.exe"));
    let names = vec!["init".to_string(), "Byond.exe".to_string()];
    assert!(check_byond_pager_running(Platform::Windows, &names));
    assert!(!check_byond_pager_running(Platform::Linux, &names));
    assert!(!check_byond_pager_running(Platform::Windows, &vec!["init".to_string()]));
    assert!(!check_byond_pager_running(Platform::Windows, &Vec::new()));
}

fn servers() -> Vec<Server> {
    vec![
        Server {
            name: "Alpha".to_string(),
            url: "byond://play.example:1400".to_string(),
            status: "available".to_string(),
            data: Some(ServerData {
                round_id: 9,
                mode: "Distress".to_string(),
                map_name: "LV-624".to_string(),
                gamestate: 3,
                players: 120,
            }),
            recommended_byond_version: Some("516.1684".to_string()),
        },
        Server {
            name: "Beta".to_string(),
            url: "play.example".to_string(),
            status: "available".to_string(),
            data: None,
            recommended_byond_version: Some("516.1684".to_string()),
        },
        Server {
            name: "Gamma".to_string(),
            url: "g:1".to_string(),
            status: "offline".to_string(),
            data: None,
            recommended_byond_version: None,
        },
    ]
}

#[test]
fn target_is_resolved_by_exact_name() {
    let list = servers();
    let t = resolve_target(Some(&list), "Alpha", Some(Some("relay.example".to_string()))).unwrap();
    assert_eq!(t.version, "516.1684");
    assert_eq!(t.port, "1400");
    assert_eq!(t.host, "relay.example");
    assert_eq!(t.map_name.as_deref(), Some("LV-624"));
}

#[test]
fn target_failures_come_in_order() {
    let list = servers();
    let host = || Some(Some("r".to_string()));
    assert_eq!(
        resolve_target(None, "Alpha", None).unwrap_err(),
        "Server state not available"
    );
    assert_eq!(
        resolve_target(Some(&list), "alpha", host()).unwrap_err(),
        "Server 'alpha' not found"
    );
    assert_eq!(
        resolve_target(Some(&list), "Gamma", None).unwrap_err(),
        "Server has no recommended BYOND version"
    );
    assert_eq!(
        resolve_target(Some(&list), "Beta", None).unwrap_err(),
        "Invalid server URL format"
    );
    assert_eq!(
        resolve_target(Some(&list), "Alpha", None).unwrap_err(),
        "Relay state not available"
    );
    assert_eq!(
        resolve_target(Some(&list), "Alpha", Some(None)).unwrap_err(),
        "No relay selected"
    );
}

fn request(source: Option<&str>) -> ConnectRequest {
    let list = servers();
    let target = resolve_target(Some(&list), "Alpha", Some(Some("relay".to_string()))).unwrap();
    make_request(
        target,
        (Some("cm_ss13".to_string()), Some("tok".to_string())),
        "Alpha".to_string(),
        source.map(|s| s.to_string()),
    )
}

fn installed(path: Option<&str>, there: bool) -> Result<ByondVersionInfo, String> {
    Ok(ByondVersionInfo {
        version: "516.1684".to_string(),
        installed: there,
        path: path.map(|p| p.to_string()),
    })
}

#[test]
fn request_is_put_together() {
    let r = request(Some("user"));
    assert_eq!(r.version, "516.1684");
    assert_eq!(r.host, "relay");
    assert_eq!(r.port, "1400");
    assert_eq!(r.access_type.as_deref(), Some("cm_ss13"));
    assert_eq!(r.access_token.as_deref(), Some("tok"));
    assert_eq!(r.server_name, "Alpha");
    assert_eq!(r.map_name.as_deref(), Some("LV-624"));
    assert_eq!(r.source.as_deref(), Some("user"));
}

#[test]
fn launch_is_planned_per_platform() {
    let plan = plan_launch(
        &request(Some("user")),
        installed(Some("C:/ds.exe"), true),
        Platform::Windows,
        false,
        Some("7000"),
        Some("7001"),
    )
    .unwrap();
    assert_eq!(plan.executable, "C:/ds.exe");
    assert_eq!(
        plan.connect_url,
        "byond://relay:1400?cm_ss13=tok&launcher_port=7000&websocket_port=7001"
    );
    assert!(!plan.via_wine);
    assert!(plan.announce);
    assert_eq!(plan.params.server_name, "Alpha");
    assert_eq!(plan.params.map_name.as_deref(), Some("LV-624"));
    assert_eq!(plan.params.host, "relay");
    let done = launch_result(&plan, Ok(())).unwrap();
    assert!(done.success);
    assert_eq!(done.message, "Connecting to relay with BYOND 516.1684");
    assert_eq!(
        launch_result(&plan, Err("no such file".to_string())).unwrap_err(),
        "Failed to launch DreamSeeker: no such file"
    );

    let plan = plan_launch(
        &request(Some("control_server_restart")),
        installed(Some("/d/ds.exe"), true),
        Platform::Linux,
        true,
        None,
        None,
    )
    .unwrap();
    assert!(plan.via_wine);
    assert!(!plan.announce);
    assert_eq!(plan.connect_url, "byond://relay:1400?cm_ss13=tok");
    assert_eq!(
        launch_result(&plan, Ok(())).unwrap().message,
        "Connecting to relay with BYOND 516.1684 (via Wine)"
    );
    assert_eq!(
        launch_result(&plan, Err("x".to_string())).unwrap_err(),
        "Failed to launch DreamSeeker via Wine: x"
    );
    assert!(plan_launch(&request(None), installed(Some("p"), true), Platform::Linux, true, None, None)
        .unwrap()
        .announce);
}

#[test]
fn launch_is_refused_in_order() {
    let r = request(None);
    assert_eq!(
        plan_launch(&r, Err("install broke".to_string()), Platform::Other, false, None, None)
            .unwrap_err(),
        "install broke"
    );
    assert_eq!(
        plan_launch(&r, installed(None, false), Platform::Windows, true, None, None).unwrap_err(),
        "Failed to install BYOND version 516.1684"
    );
    assert_eq!(
        plan_launch(&r, installed(None, true), Platform::Windows, true, None, None).unwrap_err(),
        "DreamSeeker path not found"
    );
    for platform in [Platform::Other, Platform::MacOs] {
        assert_eq!(
            plan_launch(&r, installed(Some("p"), true), platform, true, None, None).unwrap_err(),
            "BYOND is only supported on Windows and Linux (via Wine)"
        );
    }
    assert_eq!(
        plan_launch(&r, installed(Some("p"), true), Platform::Linux, false, None, None)
            .unwrap_err(),
        "Wine environment not fully configured. Please complete setup first."
    );
}

#[test]
fn literal_addresses_are_read_in_dev_mode_only() {
    assert_eq!(
        parse_connect_url("byond://localhost:1400", false).unwrap_err(),
        "Dev mode is not enabled"
    );
    assert_eq!(
        parse_connect_url("byond://localhost:1400", true).unwrap(),
        ("localhost".to_string(), "1400".to_string(), "Dev Server (localhost:1400)".to_string())
    );
    assert_eq!(
        parse_connect_url("10.0.0.1:2", true).unwrap(),
        ("10.0.0.1".to_string(), "2".to_string(), "Dev Server (10.0.0.1:2)".to_string())
    );
    for bad in ["localhost", "a:b:c", "byond://x"] {
        assert_eq!(
            parse_connect_url(bad, true).unwrap_err(),
            "Invalid URL format. Expected 'host:port'"
        );
    }
}
