use cm_launcher::wine::{
    check_prefix_status, is_ready, check_registry_key_exists, check_webview2_installed, kill_wine_process,
    launch_failure, launch_with_wine, resolve_system_wine_paths, resolve_wine_paths,
    run_wine_command, run_winetricks, run_winetricks_args, set_registry_key,
    set_registry_key_args, BundledProbe, SystemProbe, WineError, WinePaths, WineSetupStage,
};
use cm_launcher::wine_setup::{
    leftover_processes, winetricks_verb, SetupCommand, SetupInput, SetupPhase, SetupStep,
    WineSetup, INSTALLER_TIMEOUT_MS, SETTLE_MS,
};

fn system(wine64: Option<&str>, wine: Option<&str>, tricks: Option<&str>) -> SystemProbe {
    SystemProbe {
        wine64: wine64.map(|s| s.to_string()),
        wine: wine.map(|s| s.to_string()),
        wineserver: None,
        wineboot: Some("/usr/bin/wineboot".to_string()),
        winetricks: tricks.map(|s| s.to_string()),
        wine_dir: None,
    }
}

#[test]
fn system_paths_are_resolved() {
    let p = resolve_system_wine_paths(system(Some("/usr/bin/wine64"), None, Some("/usr/bin/winetricks")))
        .unwrap();
    assert_eq!(p.wine64, "/usr/bin/wine64");
    assert_eq!(p.wine, "/usr/bin/wine64");
    assert_eq!(p.wine_dir, "/usr");
    assert_eq!(p.wineserver, "/usr/bin/wineserver");
    assert_eq!(p.wineboot, "/usr/bin/wineboot");
    assert_eq!(p.winetricks, "/usr/bin/winetricks");
    assert!(!p.is_bundled);
    let p = resolve_system_wine_paths(system(None, Some("/o/bin/wine"), Some("t"))).unwrap();
    assert_eq!((p.wine.as_str(), p.wine64.as_str()), ("/o/bin/wine", "/o/bin/wine"));
    let mut probe = system(Some("/o/bin/wine64"), Some("/o/bin/wine"), Some("t"));
    probe.wine_dir = Some("/o".to_string());
    let p = resolve_system_wine_paths(probe).unwrap();
    assert_eq!((p.wine.as_str(), p.wine64.as_str()), ("/o/bin/wine", "/o/bin/wine64"));
    assert_eq!(p.wineserver, "/o/bin/wineserver");
    assert!(matches!(
        resolve_system_wine_paths(system(None, None, Some("t"))),
        Err(WineError::WineNotFound)
    ));
    assert!(matches!(
        resolve_system_wine_paths(system(Some("w"), None, None)),
        Err(WineError::WinetricksNotFound)
    ));
}

fn bundled(wine64: bool, wine: bool, server: bool) -> Option<BundledProbe> {
    Some(BundledProbe {
        wine_dir: "/app/wine".to_string(),
        has_wine64: wine64,
        has_wine: wine,
        has_wineserver: server,
    })
}

#[test]
fn bundled_wine_is_preferred_when_usable() {
    let p = resolve_wine_paths(bundled(true, false, true), Some("/res/winetricks".to_string()), system(None, None, None))
        .unwrap();
    assert!(p.is_bundled);
    assert_eq!(p.wine64, "/app/wine/bin/wine64");
    assert_eq!(p.wine, "/app/wine/bin/wine64");
    assert_eq!(p.wineserver, "/app/wine/bin/wineserver");
    assert_eq!(p.wineboot, "/app/wine/bin/wineboot");
    assert_eq!(p.winetricks, "/res/winetricks");
    assert_eq!(p.wine_dir, "/app/wine");
    let p = resolve_wine_paths(bundled(false, true, true), None, system(None, None, Some("/usr/bin/winetricks")))
        .unwrap();
    assert_eq!((p.wine.as_str(), p.wine64.as_str()), ("/app/wine/bin/wine", "/app/wine/bin/wine"));
    assert_eq!(p.winetricks, "/usr/bin/winetricks");
    assert!(matches!(
        resolve_wine_paths(bundled(true, true, true), None, system(Some("w"), None, None)),
        Err(WineError::WinetricksNotFound)
    ));
    let p = resolve_wine_paths(bundled(true, true, false), Some("x".to_string()), system(Some("/usr/bin/wine64"), None, Some("t")))
        .unwrap();
    assert!(!p.is_bundled);
    let p = resolve_wine_paths(bundled(false, false, true), None, system(Some("/usr/bin/wine64"), None, Some("t")))
        .unwrap();
    assert!(!p.is_bundled);
    assert!(matches!(
        resolve_wine_paths(None, None, system(None, None, None)),
        Err(WineError::WineNotFound)
    ));
}

#[test]
fn status_is_put_together() {
    let s = check_prefix_status(Err(WineError::WineNotFound), Ok(("v".to_string(), true)), true, Some((true, true)));
    assert!(!s.installed && !s.winetricks_installed && !s.prefix_initialized);
    assert_eq!(
        s.error.as_deref(),
        Some("Wine is not installed. Please install Wine 10.5+ using your package manager.")
    );
    let s = check_prefix_status(Ok(()), Err(WineError::Other("broken".to_string())), true, None);
    assert!(!s.installed);
    assert_eq!(s.error.as_deref(), Some("broken"));
    let s = check_prefix_status(Ok(()), Ok(("wine-10.6".to_string(), true)), false, Some((true, false)));
    assert!(s.installed && s.meets_minimum_version && !s.winetricks_installed);
    assert!(s.prefix_initialized && !s.webview2_installed);
    assert!(!is_ready(&s));
    assert!(is_ready(&check_prefix_status(
        Ok(()),
        Ok(("wine-10.6".to_string(), true)),
        true,
        Some((true, true))
    )));
    assert_eq!(s.version.as_deref(), Some("wine-10.6"));
    assert_eq!(s.error, None);
    let s = check_prefix_status(Ok(()), Ok(("wine-9.0".to_string(), false)), true, None);
    assert!(s.installed && !s.meets_minimum_version && s.winetricks_installed);
    assert!(!s.prefix_initialized && !s.webview2_installed);
}

#[test]
fn command_arguments() {
    assert_eq!(run_winetricks_args("dxvk"), vec!["-q", "dxvk"]);
    assert_eq!(
        set_registry_key_args("HKCU\\X", "version", "win7", "REG_SZ"),
        vec!["reg", "add", "HKCU\\X", "/v", "version", "/t", "REG_SZ", "/d", "win7", "/f"]
    );
    assert_eq!(check_registry_key_exists("HKLM\\Y", "pv"), vec!["reg", "query", "HKLM\\Y", "/v", "pv"]);
    assert_eq!(kill_wine_process("setup.exe"), vec!["taskkill", "/f", "/im", "setup.exe"]);
    assert_eq!(
        check_webview2_installed(),
        vec!["drive_c", "Program Files (x86)", "Microsoft", "EdgeWebView"]
    );
    assert_eq!(
        leftover_processes(),
        vec!["MicrosoftEdgeUpdate.exe", "MicrosoftEdgeWebView2Setup.exe", "setup.exe"]
    );
}

#[test]
fn runs_are_judged() {
    assert!(run_winetricks("dxvk", Ok((true, "warn".to_string()))).is_ok());
    match run_winetricks("dxvk", Ok((false, "bad".to_string()))) {
        Err(WineError::WinetricksFailed(verb, e)) => assert_eq!((verb.as_str(), e.as_str()), ("dxvk", "bad")),
        other => panic!("unexpected {:?}", other),
    }
    assert!(matches!(run_winetricks("dxvk", Err("io".to_string())), Err(WineError::Io(_))));
    assert!(set_registry_key("HKCU\\X", "version", Ok((true, String::new()))).is_ok());
    match set_registry_key("HKCU\\X", "version", Ok((false, "denied".to_string()))) {
        Err(e) => assert_eq!(
            e.message(),
            "Failed to set registry key: Failed to set HKCU\\X\\version: denied"
        ),
        other => panic!("unexpected {:?}", other),
    }
    assert_eq!(launch_failure("nope".to_string()).message(), "Failed to launch application: nope");
}

fn paths() -> WinePaths {
    WinePaths {
        wine: "/w/bin/wine".to_string(),
        wine64: "/w/bin/wine64".to_string(),
        wineserver: "/w/bin/wineserver".to_string(),
        wineboot: "/w/bin/wineboot".to_string(),
        winetricks: "/t".to_string(),
        wine_dir: "/w".to_string(),
        is_bundled: false,
    }
}

fn kv(k: &str, v: &str) -> (String, String) {
    (k.to_string(), v.to_string())
}

#[test]
fn wine_commands_are_built() {
    let c = run_wine_command(&paths(), "/prefix", "", &vec!["reg".to_string()]);
    assert_eq!(c.program, "/w/bin/wine");
    assert_eq!(c.args, vec!["reg"]);
    assert_eq!(c.env, vec![kv("WINEPREFIX", "/prefix"), kv("WINEDEBUG", "-all")]);
    let c = launch_with_wine(
        &paths(),
        "/prefix",
        "",
        "/d/ds.exe",
        &vec!["byond://h:1".to_string()],
        &vec![kv("WEBVIEW2_USER_DATA_FOLDER", "/d/webview2_data")],
    );
    assert_eq!(c.program, "/w/bin/wine");
    assert_eq!(c.args, vec!["/d/ds.exe", "byond://h:1"]);
    assert_eq!(
        c.env,
        vec![
            kv("WINEPREFIX", "/prefix"),
            kv("WINEDEBUG", "-all"),
            kv("WEBVIEW2_USER_DATA_FOLDER", "/d/webview2_data"),
        ]
    );
}

fn advance(step: SetupStep, input: SetupInput) -> SetupStep {
    step.setup.step(input)
}

fn reported(step: &SetupStep) -> Vec<(u8, String)> {
    step.reported.iter().map(|p| (p.progress, p.message.clone())).collect()
}

fn up_to_installer() -> (SetupStep, Vec<(u8, String)>) {
    let mut seen = Vec::new();
    let mut step = WineSetup::new().step(SetupInput::Begin);
    assert!(matches!(step.command, SetupCommand::ResolvePaths));
    seen.extend(reported(&step));
    step = advance(step, SetupInput::Found(Ok(())));
    assert!(matches!(step.command, SetupCommand::CheckWine));
    step = advance(step, SetupInput::WineChecked(Ok(("wine-10.5".to_string(), true))));
    assert!(matches!(step.command, SetupCommand::CheckWinetricks));
    step = advance(step, SetupInput::Found(Ok(())));
    assert!(matches!(step.command, SetupCommand::CreatePrefixDirectory));
    step = advance(step, SetupInput::Done(Ok(())));
    assert!(matches!(step.command, SetupCommand::CreatePrefix));
    seen.extend(reported(&step));
    step = advance(step, SetupInput::Ran(Ok((true, String::new()))));
    assert!(matches!(step.command, SetupCommand::Sleep { ms: SETTLE_MS }));
    step = advance(step, SetupInput::Slept);
    for verb in ["vcrun2022", "dxtrans", "corefonts", "dxvk"] {
        match &step.command {
            SetupCommand::RunWinetricks { verb: v } => assert_eq!(v, verb),
            other => panic!("unexpected command {:?}", other),
        }
        seen.extend(reported(&step));
        step = advance(step, SetupInput::Ran(Ok((true, String::new()))));
    }
    match &step.command {
        SetupCommand::SetRegistry { path, key, value, reg_type } => {
            assert_eq!(path, "HKEY_CURRENT_USER\\Software\\Wine\\AppDefaults\\msedgewebview2.exe");
            assert_eq!((key.as_str(), value.as_str(), reg_type.as_str()), ("version", "win7", "REG_SZ"));
        }
        other => panic!("unexpected command {:?}", other),
    }
    seen.extend(reported(&step));
    step = advance(step, SetupInput::Ran(Ok((true, String::new()))));
    match &step.command {
        SetupCommand::Download { url } => assert!(url.ends_with("MicrosoftEdgeWebView2RuntimeInstallerX64.exe")),
        other => panic!("unexpected command {:?}", other),
    }
    seen.extend(reported(&step));
    step = advance(step, SetupInput::Downloaded(Ok(())));
    assert!(matches!(step.command, SetupCommand::StartInstaller));
    seen.extend(reported(&step));
    step = advance(step, SetupInput::Done(Ok(())));
    match &step.command {
        SetupCommand::LookAtInstaller { key, value_name } => {
            assert!(key.starts_with("HKEY_LOCAL_MACHINE\\SOFTWARE\\WOW6432Node\\Microsoft\\EdgeUpdate\\Clients\\{F3017226"));
            assert_eq!(value_name, "pv");
        }
        other => panic!("unexpected command {:?}", other),
    }
    (step, seen)
}

fn finish(step: SetupStep, mut seen: Vec<(u8, String)>) {
    let step = advance(step, SetupInput::CleanedUp);
    match &step.command {
        SetupCommand::WriteMarker { contents } => assert_eq!(contents, "1"),
        other => panic!("unexpected command {:?}", other),
    }
    let step = advance(step, SetupInput::Done(Ok(())));
    assert!(matches!(step.command, SetupCommand::Finish(Ok(()))));
    assert_eq!(step.setup.phase, SetupPhase::Finished);
    assert_eq!(step.reported[0].stage, WineSetupStage::Complete);
    seen.extend(reported(&step));
    let want: Vec<(u8, String)> = [
        (0, "Checking Wine installation..."),
        (5, "Creating Wine prefix..."),
        (10, "Installing Visual C++ 2022 runtime..."),
        (20, "Installing DirectX Transform libraries..."),
        (30, "Installing Microsoft core fonts..."),
        (40, "Installing DXVK (Vulkan-based DirectX)..."),
        (55, "Configuring WebView2 compatibility..."),
        (60, "Downloading WebView2 installer..."),
        (80, "Installing WebView2 (this may take a while)..."),
        (100, "Wine environment setup complete!"),
    ]
    .iter()
    .map(|(p, m)| (*p, m.to_string()))
    .collect();
    assert_eq!(seen, want);
}

#[test]
fn setup_runs_through_once_the_key_appears() {
    let (step, seen) = up_to_installer();
    let step = advance(step, SetupInput::Looked { key_exists: false, exited: false, elapsed_ms: 10 });
    assert!(matches!(step.command, SetupCommand::Sleep { ms: 2000 }));
    let step = advance(step, SetupInput::Slept);
    assert!(matches!(step.command, SetupCommand::LookAtInstaller { .. }));
    let step = advance(step, SetupInput::Looked { key_exists: true, exited: false, elapsed_ms: 2100 });
    assert!(matches!(step.command, SetupCommand::CleanUp { kill_installer: false }));
    finish(step, seen);
}

#[test]
fn setup_goes_on_when_the_installer_exits_or_times_out() {
    let (step, seen) = up_to_installer();
    let step = advance(step, SetupInput::Looked { key_exists: false, exited: true, elapsed_ms: 10 });
    assert!(matches!(step.command, SetupCommand::Sleep { ms: 2000 }));
    let step = advance(step, SetupInput::Slept);
    assert!(matches!(step.command, SetupCommand::CleanUp { kill_installer: false }));
    finish(step, seen);

    let (step, seen) = up_to_installer();
    let step = advance(
        step,
        SetupInput::Looked { key_exists: false, exited: false, elapsed_ms: INSTALLER_TIMEOUT_MS },
    );
    assert!(matches!(step.command, SetupCommand::Sleep { .. }));
    let step = advance(step, SetupInput::Slept);
    let step = advance(
        step,
        SetupInput::Looked { key_exists: false, exited: false, elapsed_ms: INSTALLER_TIMEOUT_MS + 1 },
    );
    assert!(matches!(step.command, SetupCommand::CleanUp { kill_installer: true }));
    finish(step, seen);
}

fn failure(step: &SetupStep) -> String {
    assert_eq!(step.setup.phase, SetupPhase::Finished);
    assert!(step.reported.is_empty());
    match &step.command {
        SetupCommand::Finish(Err(e)) => e.message(),
        other => panic!("unexpected command {:?}", other),
    }
}

#[test]
fn setup_failures() {
    let begun = || WineSetup::new().step(SetupInput::Begin);
    assert_eq!(
        failure(&advance(begun(), SetupInput::Found(Err(WineError::WineNotFound)))),
        "Wine is not installed. Please install Wine 10.5+ using your package manager."
    );
    let step = advance(begun(), SetupInput::Found(Ok(())));
    assert_eq!(
        failure(&advance(step, SetupInput::WineChecked(Ok(("wine-9.0".to_string(), false))))),
        "Wine version wine-9.0 is too old. Please upgrade to Wine 10.5 or newer."
    );
    let checked = || {
        let step = advance(begun(), SetupInput::Found(Ok(())));
        advance(step, SetupInput::WineChecked(Ok(("wine-10.5".to_string(), true))))
    };
    assert_eq!(
        failure(&advance(checked(), SetupInput::Found(Err(WineError::WinetricksNotFound)))),
        "Winetricks is not installed. Please install winetricks using your package manager."
    );
    let dir = || advance(checked(), SetupInput::Found(Ok(())));
    assert_eq!(failure(&advance(dir(), SetupInput::Done(Err("denied".to_string())))), "IO error: denied");
    let boot = || advance(dir(), SetupInput::Done(Ok(())));
    assert_eq!(
        failure(&advance(boot(), SetupInput::Ran(Ok((false, "crash".to_string()))))),
        "Failed to create Wine prefix: crash"
    );
    assert_eq!(failure(&advance(boot(), SetupInput::Ran(Err("no wine".to_string())))), "IO error: no wine");
    let first = || advance(advance(boot(), SetupInput::Ran(Ok((true, String::new())))), SetupInput::Slept);
    let second = advance(first(), SetupInput::Ran(Ok((true, String::new()))));
    assert_eq!(
        failure(&advance(second, SetupInput::Ran(Ok((false, "oops".to_string()))))),
        "Failed to run winetricks dxtrans: oops"
    );
    let (step, _) = up_to_installer();
    let step = advance(step, SetupInput::Looked { key_exists: true, exited: false, elapsed_ms: 0 });
    let step = advance(step, SetupInput::CleanedUp);
    assert_eq!(failure(&advance(step, SetupInput::Done(Err("ro".to_string())))), "IO error: ro");

    let mut step = first();
    for _ in 0..4 {
        step = advance(step, SetupInput::Ran(Ok((true, String::new()))));
    }
    assert!(matches!(step.command, SetupCommand::SetRegistry { .. }));
    let registry = advance(step, SetupInput::Ran(Ok((false, "locked".to_string()))));
    assert_eq!(
        failure(&registry),
        "Failed to set registry key: Failed to set HKEY_CURRENT_USER\\Software\\Wine\\AppDefaults\\msedgewebview2.exe\\version: locked"
    );
    let mut step = first();
    for _ in 0..5 {
        step = advance(step, SetupInput::Ran(Ok((true, String::new()))));
    }
    assert!(matches!(step.command, SetupCommand::Download { .. }));
    assert_eq!(
        failure(&advance(step, SetupInput::Downloaded(Err("HTTP 404".to_string())))),
        "Failed to download WebView2: HTTP 404"
    );
    let mut step = first();
    for _ in 0..5 {
        step = advance(step, SetupInput::Ran(Ok((true, String::new()))));
    }
    let step = advance(step, SetupInput::Downloaded(Ok(())));
    assert_eq!(
        failure(&advance(step, SetupInput::Done(Err("no exec".to_string())))),
        "IO error: no exec"
    );
    assert_eq!(
        WineError::WebView2InstallFailed("x".to_string()).message(),
        "Failed to install WebView2: x"
    );
}

#[test]
fn setup_ignores_stray_reports() {
    let step = WineSetup::new().step(SetupInput::Slept);
    assert_eq!(step.setup.phase, SetupPhase::Idle);
    assert!(matches!(step.command, SetupCommand::Nothing));
    let step = WineSetup::new().step(SetupInput::Begin);
    let step = advance(step, SetupInput::Begin);
    assert_eq!(step.setup.phase, SetupPhase::ResolvingPaths);
    assert!(matches!(step.command, SetupCommand::Nothing));
    assert_eq!(winetricks_verb(3).0, "dxvk");
}
