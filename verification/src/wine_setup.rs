//! Setting up the prefix of the compatibility layer, as a state machine:
//! the machine decides what is done next and which progress is reported;
//! its driver runs the commands and reports how each ended.

use vstd::prelude::*;
use crate::text::{concat3};
use crate::wine::{
    registry_outcome, run_view, set_registry_key, verb_progress,
    winetricks_outcome, run_winetricks, winetricks_progress, RunOutcome, WineError, WineErrorView,
    WineSetupProgress, WineSetupStage, WINETRICKS_VERB_COUNT,
};

verus! {

/// Milliseconds to let the prefix settle, and to wait between two looks at
/// the installer.
pub const SETTLE_MS: u64 = 2000;

/// Milliseconds after which the installer of the web view is given up.
pub const INSTALLER_TIMEOUT_MS: u64 = 300000;

/// The component that winetricks installs at a position, and how it is
/// described to the user.
pub open spec fn verb_at(i: int) -> (Seq<char>, Seq<char>) {
    if i == 0 {
        ("vcrun2022"@, "Visual C++ 2022 runtime"@)
    } else if i == 1 {
        ("dxtrans"@, "DirectX Transform libraries"@)
    } else if i == 2 {
        ("corefonts"@, "Microsoft core fonts"@)
    } else {
        ("dxvk"@, "DXVK (Vulkan-based DirectX)"@)
    }
}

/// The component that winetricks installs at a position, and how it is
/// described to the user.
pub fn winetricks_verb(i: u8) -> (r: (String, String))
    ensures
        (r.0@, r.1@) == verb_at(i as int),
{
    if i == 0 {
        ("vcrun2022".to_owned(), "Visual C++ 2022 runtime".to_owned())
    } else if i == 1 {
        ("dxtrans".to_owned(), "DirectX Transform libraries".to_owned())
    } else if i == 2 {
        ("corefonts".to_owned(), "Microsoft core fonts".to_owned())
    } else {
        ("dxvk".to_owned(), "DXVK (Vulkan-based DirectX)".to_owned())
    }
}

/// The key of the registry under which the web view is made to see an older
/// system.
pub open spec fn compat_key_path() -> Seq<char> {
    "HKEY_CURRENT_USER\\Software\\Wine\\AppDefaults\\msedgewebview2.exe"@
}

/// The key of the registry that tells that the web view is installed.
pub open spec fn installed_key_path() -> Seq<char> {
    "HKEY_LOCAL_MACHINE\\SOFTWARE\\WOW6432Node\\Microsoft\\EdgeUpdate\\Clients\\{F3017226-FE2A-4295-8BDF-00C3A9A7E4C5}"@
}

/// Where the installer of the web view is downloaded from.
pub open spec fn webview2_url() -> Seq<char> {
    "https://github.com/aedancullen/webview2-evergreen-standalone-installer-archive/releases/download/109.0.1518.78/MicrosoftEdgeWebView2RuntimeInstallerX64.exe"@
}

/// What the setup is waiting for.
#[derive(Debug, Clone, Copy, PartialEq, Eq, Structural)]
pub enum SetupPhase {
    Idle,
    ResolvingPaths,
    CheckingWine,
    CheckingWinetricks,
    CreatingDirectory,
    CreatingPrefix,
    Settling,
    InstallingComponent,
    ConfiguringRegistry,
    Downloading,
    StartingInstaller,
    WatchingInstaller,
    BetweenLooks,
    AfterInstaller,
    CleaningUp,
    WritingMarker,
    Finished,
}

/// What the driver of the setup is to do next.
#[derive(Debug)]
pub enum SetupCommand {
    /// Resolve the paths of the wine binaries.
    ResolvePaths,
    /// Ask wine for its version.
    CheckWine,
    /// Look whether winetricks is there.
    CheckWinetricks,
    /// Create the directory of the prefix.
    CreatePrefixDirectory,
    /// Run `wine wineboot --init` in the prefix.
    CreatePrefix,
    /// Wait for so many milliseconds.
    Sleep { ms: u64 },
    /// Run winetricks, unattended, for this component.
    RunWinetricks { verb: String },
    /// Set this value of the registry of the prefix.
    SetRegistry { path: String, key: String, value: String, reg_type: String },
    /// Download the installer of the web view from this address.
    Download { url: String },
    /// Start the installer of the web view, silently.
    StartInstaller,
    /// Look whether this key of the registry has this value, whether the
    /// installer has exited, and how long it has been running.
    LookAtInstaller { key: String, value_name: String },
    /// Kill the installer if that is asked, end what it left running, and
    /// remove its file; all as far as possible.
    CleanUp { kill_installer: bool },
    /// Write this into the marker file of the prefix.
    WriteMarker { contents: String },
    /// The setup has ended, this way.
    Finish(Result<(), WineError>),
    /// Nothing: the setup has not begun, or has ended.
    Nothing,
}

/// What the driver of the setup reports back.
#[derive(Debug)]
pub enum SetupInput {
    /// Begin the setup.
    Begin,
    /// Whether the paths could be resolved, or winetricks was found.
    Found(Result<(), WineError>),
    /// The version line of wine and whether it is recent enough, or why
    /// wine could not be asked.
    WineChecked(Result<(String, bool), WineError>),
    /// Whether something could be done on disk, or a process be started.
    Done(Result<(), String>),
    /// How a command that was run ended.
    Ran(RunOutcome),
    /// Whether the installer could be downloaded.
    Downloaded(Result<(), String>),
    /// The wait is over.
    Slept,
    /// What a look at the installer found.
    Looked { key_exists: bool, exited: bool, elapsed_ms: u64 },
    /// The cleaning up is over.
    CleanedUp,
}

/// The state of a setup.
#[derive(Debug)]
pub struct WineSetup {
    pub phase: SetupPhase,
    /// Position of the component that winetricks installs, while it does.
    pub verb: u8,
}

/// A command of the setup as mathematical values.
pub enum SetupCommandView {
    ResolvePaths,
    CheckWine,
    CheckWinetricks,
    CreatePrefixDirectory,
    CreatePrefix,
    Sleep { ms: nat },
    RunWinetricks { verb: Seq<char> },
    SetRegistry { path: Seq<char>, key: Seq<char>, value: Seq<char>, reg_type: Seq<char> },
    Download { url: Seq<char> },
    StartInstaller,
    LookAtInstaller { key: Seq<char>, value_name: Seq<char> },
    CleanUp { kill_installer: bool },
    WriteMarker { contents: Seq<char> },
    Finish(Result<(), WineErrorView>),
    Nothing,
}

impl View for SetupCommand {
    type V = SetupCommandView;

    open spec fn view(&self) -> SetupCommandView {
        match self {
            SetupCommand::ResolvePaths => SetupCommandView::ResolvePaths,
            SetupCommand::CheckWine => SetupCommandView::CheckWine,
            SetupCommand::CheckWinetricks => SetupCommandView::CheckWinetricks,
            SetupCommand::CreatePrefixDirectory => SetupCommandView::CreatePrefixDirectory,
            SetupCommand::CreatePrefix => SetupCommandView::CreatePrefix,
            SetupCommand::Sleep { ms } => SetupCommandView::Sleep { ms: *ms as nat },
            SetupCommand::RunWinetricks { verb } => SetupCommandView::RunWinetricks { verb: verb@ },
            SetupCommand::SetRegistry { path, key, value, reg_type } => {
                SetupCommandView::SetRegistry {
                    path: path@,
                    key: key@,
                    value: value@,
                    reg_type: reg_type@,
                }
            },
            SetupCommand::Download { url } => SetupCommandView::Download { url: url@ },
            SetupCommand::StartInstaller => SetupCommandView::StartInstaller,
            SetupCommand::LookAtInstaller { key, value_name } => {
                SetupCommandView::LookAtInstaller { key: key@, value_name: value_name@ }
            },
            SetupCommand::CleanUp { kill_installer } => SetupCommandView::CleanUp {
                kill_installer: *kill_installer,
            },
            SetupCommand::WriteMarker { contents } => SetupCommandView::WriteMarker {
                contents: contents@,
            },
            SetupCommand::Finish(r) => SetupCommandView::Finish(
                match r {
                    Ok(()) => Ok(()),
                    Err(e) => Err(e@),
                },
            ),
            SetupCommand::Nothing => SetupCommandView::Nothing,
        }
    }
}

/// A report of the driver of the setup as mathematical values.
pub enum SetupInputView {
    Begin,
    Found(Result<(), WineErrorView>),
    WineChecked(Result<(Seq<char>, bool), WineErrorView>),
    Done(Result<(), Seq<char>>),
    Ran(Result<(bool, Seq<char>), Seq<char>>),
    Downloaded(Result<(), Seq<char>>),
    Slept,
    Looked { key_exists: bool, exited: bool, elapsed_ms: nat },
    CleanedUp,
}

impl View for SetupInput {
    type V = SetupInputView;

    open spec fn view(&self) -> SetupInputView {
        match self {
            SetupInput::Begin => SetupInputView::Begin,
            SetupInput::Found(r) => SetupInputView::Found(
                match r {
                    Ok(()) => Ok(()),
                    Err(e) => Err(e@),
                },
            ),
            SetupInput::WineChecked(r) => SetupInputView::WineChecked(
                match r {
                    Ok((v, m)) => Ok((v@, *m)),
                    Err(e) => Err(e@),
                },
            ),
            SetupInput::Done(r) => SetupInputView::Done(
                match r {
                    Ok(()) => Ok(()),
                    Err(e) => Err(e@),
                },
            ),
            SetupInput::Ran(r) => SetupInputView::Ran(run_view(*r)),
            SetupInput::Downloaded(r) => SetupInputView::Downloaded(
                match r {
                    Ok(()) => Ok(()),
                    Err(e) => Err(e@),
                },
            ),
            SetupInput::Slept => SetupInputView::Slept,
            SetupInput::Looked { key_exists, exited, elapsed_ms } => SetupInputView::Looked {
                key_exists: *key_exists,
                exited: *exited,
                elapsed_ms: *elapsed_ms as nat,
            },
            SetupInput::CleanedUp => SetupInputView::CleanedUp,
        }
    }
}

/// One report of progress as mathematical values.
pub struct ProgressView {
    pub stage: WineSetupStage,
    pub progress: nat,
    pub message: Seq<char>,
}

impl View for WineSetupProgress {
    type V = ProgressView;

    open spec fn view(&self) -> ProgressView {
        ProgressView {
            stage: self.stage,
            progress: self.progress as nat,
            message: self.message@,
        }
    }
}

/// The views of a list of reports of progress.
pub open spec fn progress_views(reports: Seq<WineSetupProgress>) -> Seq<ProgressView> {
    reports.map_values(|p: WineSetupProgress| p@)
}

/// What one step of the setup comes to, as mathematical values: the phase
/// and the position afterwards, the progress to report, and the next command.
pub struct SetupStepView {
    pub phase: SetupPhase,
    pub verb: nat,
    pub reported: Seq<ProgressView>,
    pub command: SetupCommandView,
}

/// What one step of the setup comes to.
#[derive(Debug)]
pub struct SetupStep {
    pub setup: WineSetup,
    pub reported: Vec<WineSetupProgress>,
    pub command: SetupCommand,
}

impl View for SetupStep {
    type V = SetupStepView;

    open spec fn view(&self) -> SetupStepView {
        SetupStepView {
            phase: self.setup.phase,
            verb: self.setup.verb as nat,
            reported: progress_views(self.reported@),
            command: self.command@,
        }
    }
}

/// A report that the setup is under way.
pub open spec fn under_way(progress: nat, message: Seq<char>) -> ProgressView {
    ProgressView { stage: WineSetupStage::InProgress, progress, message }
}

/// The step that goes on without a report.
pub open spec fn setup_go(phase: SetupPhase, verb: nat, command: SetupCommandView) -> SetupStepView {
    SetupStepView { phase, verb, reported: Seq::<ProgressView>::empty(), command }
}

/// The step that goes on with a report.
pub open spec fn setup_say(
    phase: SetupPhase,
    verb: nat,
    report: ProgressView,
    command: SetupCommandView,
) -> SetupStepView {
    SetupStepView { phase, verb, reported: seq![report], command }
}

/// The step that ends the setup with a failure.
pub open spec fn setup_fail(verb: nat, error: WineErrorView) -> SetupStepView {
    setup_go(SetupPhase::Finished, verb, SetupCommandView::Finish(Err(error)))
}

/// The step that begins the installation of the component at a position.
pub open spec fn install_component(i: nat) -> SetupStepView {
    setup_say(
        SetupPhase::InstallingComponent,
        i,
        under_way(verb_progress(i), "Installing "@ + verb_at(i as int).1 + "..."@),
        SetupCommandView::RunWinetricks { verb: verb_at(i as int).0 },
    )
}

/// The command to look at the installer of the web view.
pub open spec fn look_at_installer() -> SetupCommandView {
    SetupCommandView::LookAtInstaller { key: installed_key_path(), value_name: "pv"@ }
}

/// What a look at the installer decides. The web view is installed once
/// its key is in the registry. An installer that has exited is given a
/// moment before things are cleaned up. An installer that has run longer
/// than the limit is killed. Else the next look follows after a wait.
pub open spec fn on_look(verb: nat, key_exists: bool, exited: bool, elapsed_ms: nat)
    -> SetupStepView {
    if key_exists {
        setup_go(SetupPhase::CleaningUp, verb, SetupCommandView::CleanUp { kill_installer: false })
    } else if exited {
        setup_go(SetupPhase::AfterInstaller, verb, SetupCommandView::Sleep { ms: SETTLE_MS as nat })
    } else if elapsed_ms > INSTALLER_TIMEOUT_MS {
        setup_go(SetupPhase::CleaningUp, verb, SetupCommandView::CleanUp { kill_installer: true })
    } else {
        setup_go(SetupPhase::BetweenLooks, verb, SetupCommandView::Sleep { ms: SETTLE_MS as nat })
    }
}

/// The transition function of the setup. A report that the phase is not
/// waiting for changes nothing and commands nothing.
pub open spec fn setup_step_spec(phase: SetupPhase, verb: nat, input: SetupInputView)
    -> SetupStepView {
    match (phase, input) {
        (SetupPhase::Idle, SetupInputView::Begin) => setup_say(
            SetupPhase::ResolvingPaths,
            verb,
            under_way(0, "Checking Wine installation..."@),
            SetupCommandView::ResolvePaths,
        ),
        (SetupPhase::ResolvingPaths, SetupInputView::Found(r)) => match r {
            Ok(()) => setup_go(SetupPhase::CheckingWine, verb, SetupCommandView::CheckWine),
            Err(e) => setup_fail(verb, e),
        },
        (SetupPhase::CheckingWine, SetupInputView::WineChecked(r)) => match r {
            Ok((version, meets)) => if meets {
                setup_go(SetupPhase::CheckingWinetricks, verb, SetupCommandView::CheckWinetricks)
            } else {
                setup_fail(verb, WineErrorView::WineVersionTooOld(version))
            },
            Err(e) => setup_fail(verb, e),
        },
        (SetupPhase::CheckingWinetricks, SetupInputView::Found(r)) => match r {
            Ok(()) => setup_go(
                SetupPhase::CreatingDirectory,
                verb,
                SetupCommandView::CreatePrefixDirectory,
            ),
            Err(e) => setup_fail(verb, e),
        },
        (SetupPhase::CreatingDirectory, SetupInputView::Done(r)) => match r {
            Ok(()) => setup_say(
                SetupPhase::CreatingPrefix,
                verb,
                under_way(5, "Creating Wine prefix..."@),
                SetupCommandView::CreatePrefix,
            ),
            Err(e) => setup_fail(verb, WineErrorView::Io(e)),
        },
        (SetupPhase::CreatingPrefix, SetupInputView::Ran(r)) => match r {
            Err(e) => setup_fail(verb, WineErrorView::Io(e)),
            Ok((ok, stderr)) => if ok {
                setup_go(SetupPhase::Settling, verb, SetupCommandView::Sleep { ms: SETTLE_MS as nat })
            } else {
                setup_fail(verb, WineErrorView::PrefixCreationFailed(stderr))
            },
        },
        (SetupPhase::Settling, SetupInputView::Slept) => install_component(0),
        (SetupPhase::InstallingComponent, SetupInputView::Ran(r)) => match winetricks_outcome(
            verb_at(verb as int).0,
            r,
        ) {
            Err(e) => setup_fail(verb, e),
            Ok(()) => if verb + 1 < WINETRICKS_VERB_COUNT {
                install_component(verb + 1)
            } else {
                setup_say(
                    SetupPhase::ConfiguringRegistry,
                    verb,
                    under_way(55, "Configuring WebView2 compatibility..."@),
                    SetupCommandView::SetRegistry {
                        path: compat_key_path(),
                        key: "version"@,
                        value: "win7"@,
                        reg_type: "REG_SZ"@,
                    },
                )
            },
        },
        (SetupPhase::ConfiguringRegistry, SetupInputView::Ran(r)) => match registry_outcome(
            compat_key_path(),
            "version"@,
            r,
        ) {
            Err(e) => setup_fail(verb, e),
            Ok(()) => setup_say(
                SetupPhase::Downloading,
                verb,
                under_way(60, "Downloading WebView2 installer..."@),
                SetupCommandView::Download { url: webview2_url() },
            ),
        },
        (SetupPhase::Downloading, SetupInputView::Downloaded(r)) => match r {
            Err(e) => setup_fail(verb, WineErrorView::WebView2DownloadFailed(e)),
            Ok(()) => setup_say(
                SetupPhase::StartingInstaller,
                verb,
                under_way(80, "Installing WebView2 (this may take a while)..."@),
                SetupCommandView::StartInstaller,
            ),
        },
        (SetupPhase::StartingInstaller, SetupInputView::Done(r)) => match r {
            Err(e) => setup_fail(verb, WineErrorView::Io(e)),
            Ok(()) => setup_go(SetupPhase::WatchingInstaller, verb, look_at_installer()),
        },
        (SetupPhase::WatchingInstaller, SetupInputView::Looked { key_exists, exited, elapsed_ms }) => {
            on_look(verb, key_exists, exited, elapsed_ms)
        },
        (SetupPhase::BetweenLooks, SetupInputView::Slept) => setup_go(
            SetupPhase::WatchingInstaller,
            verb,
            look_at_installer(),
        ),
        (SetupPhase::AfterInstaller, SetupInputView::Slept) => setup_go(
            SetupPhase::CleaningUp,
            verb,
            SetupCommandView::CleanUp { kill_installer: false },
        ),
        (SetupPhase::CleaningUp, SetupInputView::CleanedUp) => setup_go(
            SetupPhase::WritingMarker,
            verb,
            SetupCommandView::WriteMarker { contents: "1"@ },
        ),
        (SetupPhase::WritingMarker, SetupInputView::Done(r)) => match r {
            Err(e) => setup_fail(verb, WineErrorView::Io(e)),
            Ok(()) => SetupStepView {
                phase: SetupPhase::Finished,
                verb,
                reported: seq![
                    ProgressView {
                        stage: WineSetupStage::Complete,
                        progress: 100,
                        message: "Wine environment setup complete!"@,
                    },
                ],
                command: SetupCommandView::Finish(Ok(())),
            },
        },
        _ => setup_go(phase, verb, SetupCommandView::Nothing),
    }
}

fn say(progress: u8, message: String) -> (r: Vec<WineSetupProgress>)
    ensures
        progress_views(r@) == seq![under_way(progress as nat, message@)],
{
    let p = WineSetupProgress { stage: WineSetupStage::InProgress, progress, message };
    let r = vec![p];
    assert(progress_views(r@) =~= seq![p@]);
    r
}

fn silent() -> (r: Vec<WineSetupProgress>)
    ensures
        progress_views(r@) == Seq::<ProgressView>::empty(),
{
    let r: Vec<WineSetupProgress> = Vec::new();
    assert(progress_views(r@) =~= Seq::<ProgressView>::empty());
    r
}

fn look_command() -> (c: SetupCommand)
    ensures
        c@ == look_at_installer(),
{
    SetupCommand::LookAtInstaller {
        key: "HKEY_LOCAL_MACHINE\\SOFTWARE\\WOW6432Node\\Microsoft\\EdgeUpdate\\Clients\\{F3017226-FE2A-4295-8BDF-00C3A9A7E4C5}".to_owned(),
        value_name: "pv".to_owned(),
    }
}

impl WineSetup {
    /// A setup that has not begun.
    pub fn new() -> (s: WineSetup)
        ensures
            s.phase == SetupPhase::Idle,
            s.verb == 0,
    {
        WineSetup { phase: SetupPhase::Idle, verb: 0 }
    }

    fn go(self, phase: SetupPhase, command: SetupCommand) -> (r: SetupStep)
        ensures
            r@ == setup_go(phase, self.verb as nat, command@),
    {
        SetupStep { setup: WineSetup { phase, verb: self.verb }, reported: silent(), command }
    }

    fn fail(self, error: WineError) -> (r: SetupStep)
        ensures
            r@ == setup_fail(self.verb as nat, error@),
    {
        self.go(SetupPhase::Finished, SetupCommand::Finish(Err(error)))
    }

    fn install(i: u8) -> (r: SetupStep)
        requires
            i < WINETRICKS_VERB_COUNT,
        ensures
            r@ == install_component(i as nat),
    {
        let (verb, description) = winetricks_verb(i);
        let message = concat3("Installing ", description.as_str(), "...");
        SetupStep {
            setup: WineSetup { phase: SetupPhase::InstallingComponent, verb: i },
            reported: say(winetricks_progress(i), message),
            command: SetupCommand::RunWinetricks { verb },
        }
    }

    /// One step of the setup: takes what the driver reports and gives the
    /// state after it, the progress to report and the next command.
    pub fn step(self, input: SetupInput) -> (r: SetupStep)
        ensures
            r@ == setup_step_spec(self.phase, self.verb as nat, input@),
    {
        let verb = self.verb;
        match (self.phase, input) {
            (SetupPhase::Idle, SetupInput::Begin) => SetupStep {
                setup: WineSetup { phase: SetupPhase::ResolvingPaths, verb },
                reported: say(0, "Checking Wine installation...".to_owned()),
                command: SetupCommand::ResolvePaths,
            },
            (SetupPhase::ResolvingPaths, SetupInput::Found(r)) => match r {
                Ok(()) => self.go(SetupPhase::CheckingWine, SetupCommand::CheckWine),
                Err(e) => self.fail(e),
            },
            (SetupPhase::CheckingWine, SetupInput::WineChecked(r)) => match r {
                Ok((version, meets)) => {
                    if meets {
                        self.go(SetupPhase::CheckingWinetricks, SetupCommand::CheckWinetricks)
                    } else {
                        self.fail(WineError::WineVersionTooOld(version))
                    }
                },
                Err(e) => self.fail(e),
            },
            (SetupPhase::CheckingWinetricks, SetupInput::Found(r)) => match r {
                Ok(()) => self.go(
                    SetupPhase::CreatingDirectory,
                    SetupCommand::CreatePrefixDirectory,
                ),
                Err(e) => self.fail(e),
            },
            (SetupPhase::CreatingDirectory, SetupInput::Done(r)) => match r {
                Ok(()) => SetupStep {
                    setup: WineSetup { phase: SetupPhase::CreatingPrefix, verb },
                    reported: say(5, "Creating Wine prefix...".to_owned()),
                    command: SetupCommand::CreatePrefix,
                },
                Err(e) => self.fail(WineError::Io(e)),
            },
            (SetupPhase::CreatingPrefix, SetupInput::Ran(r)) => match r {
                Err(e) => self.fail(WineError::Io(e)),
                Ok((ok, stderr)) => {
                    if ok {
                        self.go(SetupPhase::Settling, SetupCommand::Sleep { ms: SETTLE_MS })
                    } else {
                        self.fail(WineError::PrefixCreationFailed(stderr))
                    }
                },
            },
            (SetupPhase::Settling, SetupInput::Slept) => WineSetup::install(0),
            (SetupPhase::InstallingComponent, SetupInput::Ran(r)) => {
                let (name, _) = winetricks_verb(verb);
                match run_winetricks(name.as_str(), r) {
                    Err(e) => self.fail(e),
                    Ok(()) => {
                        if verb < WINETRICKS_VERB_COUNT - 1 {
                            WineSetup::install(verb + 1)
                        } else {
                            SetupStep {
                                setup: WineSetup { phase: SetupPhase::ConfiguringRegistry, verb },
                                reported: say(
                                    55,
                                    "Configuring WebView2 compatibility...".to_owned(),
                                ),
                                command: SetupCommand::SetRegistry {
                                    path: "HKEY_CURRENT_USER\\Software\\Wine\\AppDefaults\\msedgewebview2.exe".to_owned(),
                                    key: "version".to_owned(),
                                    value: "win7".to_owned(),
                                    reg_type: "REG_SZ".to_owned(),
                                },
                            }
                        }
                    },
                }
            },
            (SetupPhase::ConfiguringRegistry, SetupInput::Ran(r)) => {
                match set_registry_key(
                    "HKEY_CURRENT_USER\\Software\\Wine\\AppDefaults\\msedgewebview2.exe",
                    "version",
                    r,
                ) {
                    Err(e) => self.fail(e),
                    Ok(()) => SetupStep {
                        setup: WineSetup { phase: SetupPhase::Downloading, verb },
                        reported: say(60, "Downloading WebView2 installer...".to_owned()),
                        command: SetupCommand::Download {
                            url: "https://github.com/aedancullen/webview2-evergreen-standalone-installer-archive/releases/download/109.0.1518.78/MicrosoftEdgeWebView2RuntimeInstallerX64.exe".to_owned(),
                        },
                    },
                }
            },
            (SetupPhase::Downloading, SetupInput::Downloaded(r)) => match r {
                Err(e) => self.fail(WineError::WebView2DownloadFailed(e)),
                Ok(()) => SetupStep {
                    setup: WineSetup { phase: SetupPhase::StartingInstaller, verb },
                    reported: say(80, "Installing WebView2 (this may take a while)...".to_owned()),
                    command: SetupCommand::StartInstaller,
                },
            },
            (SetupPhase::StartingInstaller, SetupInput::Done(r)) => match r {
                Err(e) => self.fail(WineError::Io(e)),
                Ok(()) => self.go(SetupPhase::WatchingInstaller, look_command()),
            },
            (SetupPhase::WatchingInstaller, SetupInput::Looked { key_exists, exited, elapsed_ms }) => {
                if key_exists {
                    self.go(SetupPhase::CleaningUp, SetupCommand::CleanUp { kill_installer: false })
                } else if exited {
                    self.go(SetupPhase::AfterInstaller, SetupCommand::Sleep { ms: SETTLE_MS })
                } else if elapsed_ms > INSTALLER_TIMEOUT_MS {
                    self.go(SetupPhase::CleaningUp, SetupCommand::CleanUp { kill_installer: true })
                } else {
                    self.go(SetupPhase::BetweenLooks, SetupCommand::Sleep { ms: SETTLE_MS })
                }
            },
            (SetupPhase::BetweenLooks, SetupInput::Slept) => self.go(
                SetupPhase::WatchingInstaller,
                look_command(),
            ),
            (SetupPhase::AfterInstaller, SetupInput::Slept) => self.go(
                SetupPhase::CleaningUp,
                SetupCommand::CleanUp { kill_installer: false },
            ),
            (SetupPhase::CleaningUp, SetupInput::CleanedUp) => self.go(
                SetupPhase::WritingMarker,
                SetupCommand::WriteMarker { contents: "1".to_owned() },
            ),
            (SetupPhase::WritingMarker, SetupInput::Done(r)) => match r {
                Err(e) => self.fail(WineError::Io(e)),
                Ok(()) => {
                    let p = WineSetupProgress {
                        stage: WineSetupStage::Complete,
                        progress: 100,
                        message: "Wine environment setup complete!".to_owned(),
                    };
                    let reported = vec![p];
                    assert(progress_views(reported@) =~= seq![p@]);
                    SetupStep {
                        setup: WineSetup { phase: SetupPhase::Finished, verb },
                        reported,
                        command: SetupCommand::Finish(Ok(())),
                    }
                },
            },
            (phase, _) => self.go(phase, SetupCommand::Nothing),
        }
    }
}

/// The processes that the installer of the web view leaves running.
pub fn leftover_processes() -> (names: Vec<String>)
    ensures
        crate::text::views(names@) == seq![
            "MicrosoftEdgeUpdate.exe"@,
            "MicrosoftEdgeWebView2Setup.exe"@,
            "setup.exe"@,
        ],
{
    let a = "MicrosoftEdgeUpdate.exe".to_owned();
    let b = "MicrosoftEdgeWebView2Setup.exe".to_owned();
    let c = "setup.exe".to_owned();
    let names = vec![a, b, c];
    assert(crate::text::views(names@) =~= seq![a@, b@, c@]);
    names
}

} // verus!
