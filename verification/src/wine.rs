//! The compatibility layer that runs the game client on Linux: what is known
//! of an installation, and the rules that judge it.

use vstd::prelude::*;
use crate::servers::{clone_opt, opt_view};
use crate::text::{
    views,
    concat2, concat3, ends_with, has_suffix, parse_u32, split, split_on, strip_prefix, to_u32,
    trim, trimmed, without_prefix,
};

verus! {

/// Major number of the oldest Wine release that is accepted.
pub const MIN_WINE_MAJOR: u32 = 10;

/// Minor number of the oldest Wine release that is accepted.
pub const MIN_WINE_MINOR: u32 = 5;

/// The dotted number inside a version line: the line without a leading
/// `wine-`, up to its first `-`.
pub open spec fn version_core(line: Seq<char>) -> Seq<char> {
    let body = match strip_prefix(line, "wine-"@) {
        Some(rest) => rest,
        None => line,
    };
    split_on(body, '-')[0]
}

/// Whether a version line names a release that is recent enough: its dotted
/// number has at least two parts, the first two are numbers, and as a pair
/// they are not below the minimum.
pub open spec fn meets_minimum(line: Seq<char>) -> bool {
    let parts = split_on(version_core(line), '.');
    &&& parts.len() >= 2
    &&& parse_u32(parts[0]) is Some
    &&& parse_u32(parts[1]) is Some
    &&& {
        let major = parse_u32(parts[0])->0;
        let minor = parse_u32(parts[1])->0;
        major > MIN_WINE_MAJOR || (major == MIN_WINE_MAJOR && minor >= MIN_WINE_MINOR)
    }
}

/// Judges the line that `wine --version` prints, such as `wine-10.5`,
/// `wine-10.5-rc1` or `wine-10.5-staging`.
pub fn parse_and_check_wine_version(version_str: &str) -> (ok: bool)
    ensures
        ok == meets_minimum(version_str@),
{
    let body = match without_prefix(version_str, "wine-") {
        Some(rest) => rest,
        None => version_str.to_owned(),
    };
    let pieces = split(body.as_str(), '-');
    let parts = split(pieces[0].as_str(), '.');
    if parts.len() < 2 {
        return false;
    }
    let major = match to_u32(parts[0].as_str()) {
        Some(v) => v,
        None => {
            return false;
        },
    };
    let minor = match to_u32(parts[1].as_str()) {
        Some(v) => v,
        None => {
            return false;
        },
    };
    major > MIN_WINE_MAJOR || (major == MIN_WINE_MAJOR && minor >= MIN_WINE_MINOR)
}

/// The version of the setup that a prefix must have been initialised with.
pub const INIT_VERSION: u32 = 1;

/// What is known of the compatibility layer.
#[derive(Debug, Clone)]
pub struct WineStatus {
    pub installed: bool,
    pub version: Option<String>,
    pub meets_minimum_version: bool,
    pub winetricks_installed: bool,
    pub prefix_initialized: bool,
    pub webview2_installed: bool,
    pub error: Option<String>,
}

/// The status as mathematical values.
pub struct WineStatusView {
    pub installed: bool,
    pub version: Option<Seq<char>>,
    pub meets_minimum_version: bool,
    pub winetricks_installed: bool,
    pub prefix_initialized: bool,
    pub webview2_installed: bool,
    pub error: Option<Seq<char>>,
}

impl View for WineStatus {
    type V = WineStatusView;

    open spec fn view(&self) -> WineStatusView {
        WineStatusView {
            installed: self.installed,
            version: opt_view(self.version),
            meets_minimum_version: self.meets_minimum_version,
            winetricks_installed: self.winetricks_installed,
            prefix_initialized: self.prefix_initialized,
            webview2_installed: self.webview2_installed,
            error: opt_view(self.error),
        }
    }
}

/// The status of a system of which nothing is known yet.
pub open spec fn blank_status() -> WineStatusView {
    WineStatusView {
        installed: false,
        version: None,
        meets_minimum_version: false,
        winetricks_installed: false,
        prefix_initialized: false,
        webview2_installed: false,
        error: None,
    }
}

impl Default for WineStatus {
    fn default() -> (s: WineStatus)
        ensures
            s@ == blank_status(),
    {
        WineStatus {
            installed: false,
            version: None,
            meets_minimum_version: false,
            winetricks_installed: false,
            prefix_initialized: false,
            webview2_installed: false,
            error: None,
        }
    }
}

/// How far the setup of the compatibility layer has come.
#[derive(Debug, Clone, Copy, PartialEq, Eq, Structural)]
pub enum WineSetupStage {
    InProgress,
    Complete,
    Error,
}

/// One report of the setup: the stage, the percentage done, and a message.
#[derive(Debug, Clone)]
pub struct WineSetupProgress {
    pub stage: WineSetupStage,
    pub progress: u8,
    pub message: String,
}

/// What can go wrong with the compatibility layer.
#[derive(Debug)]
pub enum WineError {
    WineNotFound,
    WineVersionTooOld(String),
    WinetricksNotFound,
    PrefixCreationFailed(String),
    WinetricksFailed(String, String),
    WebView2DownloadFailed(String),
    WebView2InstallFailed(String),
    RegistryFailed(String),
    LaunchFailed(String),
    Io(String),
    Other(String),
}

/// An error as mathematical values.
pub enum WineErrorView {
    WineNotFound,
    WineVersionTooOld(Seq<char>),
    WinetricksNotFound,
    PrefixCreationFailed(Seq<char>),
    WinetricksFailed(Seq<char>, Seq<char>),
    WebView2DownloadFailed(Seq<char>),
    WebView2InstallFailed(Seq<char>),
    RegistryFailed(Seq<char>),
    LaunchFailed(Seq<char>),
    Io(Seq<char>),
    Other(Seq<char>),
}

impl View for WineError {
    type V = WineErrorView;

    open spec fn view(&self) -> WineErrorView {
        match self {
            WineError::WineNotFound => WineErrorView::WineNotFound,
            WineError::WineVersionTooOld(v) => WineErrorView::WineVersionTooOld(v@),
            WineError::WinetricksNotFound => WineErrorView::WinetricksNotFound,
            WineError::PrefixCreationFailed(e) => WineErrorView::PrefixCreationFailed(e@),
            WineError::WinetricksFailed(verb, e) => WineErrorView::WinetricksFailed(verb@, e@),
            WineError::WebView2DownloadFailed(e) => WineErrorView::WebView2DownloadFailed(e@),
            WineError::WebView2InstallFailed(e) => WineErrorView::WebView2InstallFailed(e@),
            WineError::RegistryFailed(e) => WineErrorView::RegistryFailed(e@),
            WineError::LaunchFailed(e) => WineErrorView::LaunchFailed(e@),
            WineError::Io(e) => WineErrorView::Io(e@),
            WineError::Other(e) => WineErrorView::Other(e@),
        }
    }
}

/// An error in words.
pub open spec fn error_message(e: WineErrorView) -> Seq<char> {
    match e {
        WineErrorView::WineNotFound =>
            "Wine is not installed. Please install Wine 10.5+ using your package manager."@,
        WineErrorView::WineVersionTooOld(v) => "Wine version "@ + v
            + " is too old. Please upgrade to Wine 10.5 or newer."@,
        WineErrorView::WinetricksNotFound =>
            "Winetricks is not installed. Please install winetricks using your package manager."@,
        WineErrorView::PrefixCreationFailed(e) => "Failed to create Wine prefix: "@ + e,
        WineErrorView::WinetricksFailed(verb, e) => "Failed to run winetricks "@ + verb + ": "@ + e,
        WineErrorView::WebView2DownloadFailed(e) => "Failed to download WebView2: "@ + e,
        WineErrorView::WebView2InstallFailed(e) => "Failed to install WebView2: "@ + e,
        WineErrorView::RegistryFailed(e) => "Failed to set registry key: "@ + e,
        WineErrorView::LaunchFailed(e) => "Failed to launch application: "@ + e,
        WineErrorView::Io(e) => "IO error: "@ + e,
        WineErrorView::Other(e) => e,
    }
}

impl WineError {
    /// The error in words.
    pub fn message(&self) -> (text: String)
        ensures
            text@ == error_message(self@),
    {
        match self {
            WineError::WineNotFound =>
                "Wine is not installed. Please install Wine 10.5+ using your package manager.".to_owned(),
            WineError::WineVersionTooOld(v) => concat3(
                "Wine version ",
                v.as_str(),
                " is too old. Please upgrade to Wine 10.5 or newer.",
            ),
            WineError::WinetricksNotFound =>
                "Winetricks is not installed. Please install winetricks using your package manager.".to_owned(),
            WineError::PrefixCreationFailed(e) => concat2(
                "Failed to create Wine prefix: ",
                e.as_str(),
            ),
            WineError::WinetricksFailed(verb, e) => {
                let mut text = concat3("Failed to run winetricks ", verb.as_str(), ": ");
                text.append(e.as_str());
                text
            },
            WineError::WebView2DownloadFailed(e) => concat2(
                "Failed to download WebView2: ",
                e.as_str(),
            ),
            WineError::WebView2InstallFailed(e) => concat2(
                "Failed to install WebView2: ",
                e.as_str(),
            ),
            WineError::RegistryFailed(e) => concat2("Failed to set registry key: ", e.as_str()),
            WineError::LaunchFailed(e) => concat2("Failed to launch application: ", e.as_str()),
            WineError::Io(e) => concat2("IO error: ", e.as_str()),
            WineError::Other(e) => e.clone(),
        }
    }
}

/// The paths of the binaries of the compatibility layer, as text.
#[derive(Debug, Clone)]
pub struct WinePaths {
    /// The wine binary.
    pub wine: String,
    /// The 64-bit wine binary; mostly the same as `wine`.
    pub wine64: String,
    /// The wineserver binary.
    pub wineserver: String,
    /// The wineboot binary.
    pub wineboot: String,
    /// The winetricks script.
    pub winetricks: String,
    /// The directory of the installation, below which its libraries are.
    pub wine_dir: String,
    /// Whether this is the installation that ships with the launcher.
    pub is_bundled: bool,
}

/// The paths as mathematical values.
pub struct WinePathsView {
    pub wine: Seq<char>,
    pub wine64: Seq<char>,
    pub wineserver: Seq<char>,
    pub wineboot: Seq<char>,
    pub winetricks: Seq<char>,
    pub wine_dir: Seq<char>,
    pub is_bundled: bool,
}

impl View for WinePaths {
    type V = WinePathsView;

    open spec fn view(&self) -> WinePathsView {
        WinePathsView {
            wine: self.wine@,
            wine64: self.wine64@,
            wineserver: self.wineserver@,
            wineboot: self.wineboot@,
            winetricks: self.winetricks@,
            wine_dir: self.wine_dir@,
            is_bundled: self.is_bundled,
        }
    }
}

/// A relative path below a directory: the two with one `/` between them,
/// which the directory may bring along; below no directory, the path itself.
pub open spec fn below(dir: Seq<char>, path: Seq<char>) -> Seq<char> {
    if dir.len() == 0 {
        path
    } else if ends_with(dir, "/"@) {
        dir + path
    } else {
        dir + "/"@ + path
    }
}

/// Puts a relative path below a directory.
pub fn join_below(dir: &str, path: &str) -> (r: String)
    ensures
        r@ == below(dir@, path@),
{
    if dir.unicode_len() == 0 {
        path.to_owned()
    } else if has_suffix(dir, "/") {
        concat2(dir, path)
    } else {
        concat3(dir, "/", path)
    }
}

/// The environment that commands of the compatibility layer are run with,
/// as names and values in order. For the installation that ships with the
/// launcher: where its libraries are, followed by where libraries were
/// looked for before, if anywhere; where its DLLs are; and its wineserver.
/// For every installation: debug output switched off.
pub open spec fn env_vars(paths: WinePathsView, existing_ld_path: Seq<char>) -> Seq<
    (Seq<char>, Seq<char>),
> {
    let own = below(paths.wine_dir, "lib64"@) + ":"@ + below(paths.wine_dir, "lib"@);
    let bundled = if paths.is_bundled {
        seq![
            (
                "LD_LIBRARY_PATH"@,
                if existing_ld_path.len() == 0 {
                    own
                } else {
                    own + ":"@ + existing_ld_path
                },
            ),
            (
                "WINEDLLPATH"@,
                below(paths.wine_dir, "lib64/wine"@) + ":"@ + below(paths.wine_dir, "lib/wine"@),
            ),
            ("WINESERVER"@, paths.wineserver),
        ]
    } else {
        Seq::<(Seq<char>, Seq<char>)>::empty()
    };
    bundled.push(("WINEDEBUG"@, "-all"@))
}

/// The environment that winetricks is run with: that of every command, and
/// where the wine binaries are.
pub open spec fn winetricks_env_vars(paths: WinePathsView, existing_ld_path: Seq<char>) -> Seq<
    (Seq<char>, Seq<char>),
> {
    env_vars(paths, existing_ld_path).push(("WINE"@, paths.wine)).push(("WINE64"@, paths.wine64))
}

/// The views of a list of names and values.
pub open spec fn pair_views(pairs: Seq<(String, String)>) -> Seq<(Seq<char>, Seq<char>)> {
    pairs.map_values(|p: (String, String)| (p.0@, p.1@))
}

impl WinePaths {
    /// The environment that commands of the compatibility layer are run
    /// with. `existing_ld_path` is where libraries are looked for so far;
    /// empty where nowhere.
    pub fn get_env_vars(&self, existing_ld_path: &str) -> (vars: Vec<(String, String)>)
        ensures
            pair_views(vars@) == env_vars(self@, existing_ld_path@),
    {
        let mut vars: Vec<(String, String)> = Vec::new();
        assert(pair_views(vars@) == Seq::<(Seq<char>, Seq<char>)>::empty());
        if self.is_bundled {
            let lib64 = join_below(self.wine_dir.as_str(), "lib64");
            let lib = join_below(self.wine_dir.as_str(), "lib");
            let mut ld = concat3(lib64.as_str(), ":", lib.as_str());
            if existing_ld_path.unicode_len() != 0 {
                ld.append(":");
                ld.append(existing_ld_path);
            }
            let dll = concat3(
                join_below(self.wine_dir.as_str(), "lib64/wine").as_str(),
                ":",
                join_below(self.wine_dir.as_str(), "lib/wine").as_str(),
            );
            let a = ("LD_LIBRARY_PATH".to_owned(), ld);
            let b = ("WINEDLLPATH".to_owned(), dll);
            let c = ("WINESERVER".to_owned(), self.wineserver.clone());
            let ghost av = (a.0@, a.1@);
            let ghost bv = (b.0@, b.1@);
            let ghost cv = (c.0@, c.1@);
            vars.push(a);
            vars.push(b);
            vars.push(c);
            assert(pair_views(vars@) == seq![av, bv, cv]);
        }
        let ghost before = pair_views(vars@);
        let d = ("WINEDEBUG".to_owned(), "-all".to_owned());
        let ghost dv = (d.0@, d.1@);
        vars.push(d);
        assert(pair_views(vars@) == before.push(dv));
        vars
    }

    /// The environment that winetricks is run with.
    pub fn get_winetricks_env_vars(&self, existing_ld_path: &str) -> (vars: Vec<(String, String)>)
        ensures
            pair_views(vars@) == winetricks_env_vars(self@, existing_ld_path@),
    {
        let mut vars = self.get_env_vars(existing_ld_path);
        let ghost before = pair_views(vars@);
        let a = ("WINE".to_owned(), self.wine.clone());
        let b = ("WINE64".to_owned(), self.wine64.clone());
        let ghost av = (a.0@, a.1@);
        let ghost bv = (b.0@, b.1@);
        vars.push(a);
        vars.push(b);
        assert(pair_views(vars@) == before.push(av).push(bv));
        vars
    }
}

/// What the answer to `wine --version` says: nothing where the command
/// could not be run or failed; else the version line without surrounding
/// white space, and whether it names a release that is recent enough.
pub fn check_wine_installed_with_paths(version_output: Option<&str>) -> (r: Result<
    (String, bool),
    WineError,
>)
    ensures
        match version_output {
            None => r matches Err(e) && e@ == WineErrorView::WineNotFound,
            Some(output) => r matches Ok((line, ok)) && line@ == trimmed(output@) && ok
                == meets_minimum(trimmed(output@)),
        },
{
    match version_output {
        None => Err(WineError::WineNotFound),
        Some(output) => {
            let line = trim(output);
            let ok = parse_and_check_wine_version(line.as_str());
            Ok((line, ok))
        },
    }
}

/// What is known of the system's own wine: the failure to find its
/// binaries, where they were not found; else what `wine --version` says.
pub fn check_wine_installed(found: Result<(), WineError>, version_output: Option<&str>) -> (r:
    Result<(String, bool), WineError>)
    ensures
        match found {
            Err(e) => r == Err::<(String, bool), WineError>(e),
            Ok(()) => match version_output {
                None => r matches Err(e) && e@ == WineErrorView::WineNotFound,
                Some(output) => r matches Ok((line, ok)) && line@ == trimmed(output@) && ok
                    == meets_minimum(trimmed(output@)),
            },
        },
{
    match found {
        Err(e) => Err(e),
        Ok(()) => check_wine_installed_with_paths(version_output),
    }
}

/// Whether winetricks is where the paths say: its path where the file is
/// there, the failure where it is not.
pub fn check_winetricks_installed_with_paths(paths: &WinePaths, exists: bool) -> (r: Result<
    String,
    WineError,
>)
    ensures
        match r {
            Ok(path) => exists && path@ == paths@.winetricks,
            Err(e) => !exists && e@ == WineErrorView::WinetricksNotFound,
        },
{
    if exists {
        Ok(paths.winetricks.clone())
    } else {
        Err(WineError::WinetricksNotFound)
    }
}

/// Whether a prefix counts as initialised, by what its marker file holds:
/// a number that is not below the version of the setup. A missing or
/// unreadable marker, and one that holds anything else, do not count.
pub open spec fn marker_counts(contents: Option<Seq<char>>) -> bool {
    match contents {
        None => false,
        Some(text) => parse_u32(trimmed(text)) matches Some(v) && v >= INIT_VERSION,
    }
}

/// Judges the marker file of a prefix. `contents` is what the file holds,
/// where it is there and can be read.
pub fn check_prefix_initialized(contents: Option<&str>) -> (r: bool)
    ensures
        r == marker_counts(crate::byond::opt_str_view(contents)),
{
    match contents {
        None => false,
        Some(text) => {
            let line = trim(text);
            match to_u32(line.as_str()) {
                Some(v) => v >= INIT_VERSION,
                None => false,
            }
        },
    }
}

/// How many components winetricks installs.
pub const WINETRICKS_VERB_COUNT: u8 = 4;

/// The percentage reported when the installation of the `i`-th component
/// begins: from ten upwards, forty spread evenly over the components.
pub open spec fn verb_progress(i: nat) -> nat {
    10 + (i * 40) / (WINETRICKS_VERB_COUNT as nat)
}

/// The percentage reported when the installation of the `i`-th component
/// begins.
pub fn winetricks_progress(i: u8) -> (p: u8)
    requires
        i < WINETRICKS_VERB_COUNT,
    ensures
        p == verb_progress(i as nat),
{
    10 + (i * 40) / WINETRICKS_VERB_COUNT
}

/// What a look at the installation that ships with the launcher found: its
/// directory, and which of its binaries are there.
#[derive(Debug)]
pub struct BundledProbe {
    pub wine_dir: String,
    pub has_wine64: bool,
    pub has_wine: bool,
    pub has_wineserver: bool,
}

/// What a search of the system found: each binary where it is on the search
/// path, and the directory two levels above the wine binary, if there is one.
#[derive(Debug)]
pub struct SystemProbe {
    pub wine64: Option<String>,
    pub wine: Option<String>,
    pub wineserver: Option<String>,
    pub wineboot: Option<String>,
    pub winetricks: Option<String>,
    pub wine_dir: Option<String>,
}

/// The first of two optional values that is there.
pub open spec fn or_else(a: Option<Seq<char>>, b: Option<Seq<char>>) -> Option<Seq<char>> {
    match a {
        Some(x) => Some(x),
        None => b,
    }
}

/// The paths of the system's own installation, or what is missing. The
/// 64-bit binary is preferred as the wine binary to go by; without any wine
/// binary there is no installation. The directory of the installation is
/// `/usr` where none was worked out; wineserver and wineboot are taken to be
/// in its `bin` where they are not on the search path. Winetricks must be
/// on the search path.
pub open spec fn system_paths(
    wine64: Option<Seq<char>>,
    wine: Option<Seq<char>>,
    wineserver: Option<Seq<char>>,
    wineboot: Option<Seq<char>>,
    winetricks: Option<Seq<char>>,
    wine_dir: Option<Seq<char>>,
) -> Result<WinePathsView, WineErrorView> {
    match or_else(wine64, wine) {
        None => Err(WineErrorView::WineNotFound),
        Some(first) => {
            let dir = match wine_dir {
                Some(d) => d,
                None => "/usr"@,
            };
            match winetricks {
                None => Err(WineErrorView::WinetricksNotFound),
                Some(tricks) => Ok(
                    WinePathsView {
                        wine: match wine {
                            Some(w) => w,
                            None => first,
                        },
                        wine64: first,
                        wineserver: match wineserver {
                            Some(w) => w,
                            None => below(dir, "bin/wineserver"@),
                        },
                        wineboot: match wineboot {
                            Some(w) => w,
                            None => below(dir, "bin/wineboot"@),
                        },
                        winetricks: tricks,
                        wine_dir: dir,
                        is_bundled: false,
                    },
                ),
            }
        },
    }
}

/// The view of resolved paths, or of the failure in their place.
pub open spec fn paths_view(r: Result<WinePaths, WineError>) -> Result<WinePathsView, WineErrorView> {
    match r {
        Ok(p) => Ok(p@),
        Err(e) => Err(e@),
    }
}

/// Resolves the paths of the system's own installation.
pub fn resolve_system_wine_paths(probe: SystemProbe) -> (r: Result<WinePaths, WineError>)
    ensures
        paths_view(r) == system_paths(
            opt_view(probe.wine64),
            opt_view(probe.wine),
            opt_view(probe.wineserver),
            opt_view(probe.wineboot),
            opt_view(probe.winetricks),
            opt_view(probe.wine_dir),
        ),
{
    let first = match probe.wine64 {
        Some(w) => w,
        None => match clone_opt(&probe.wine) {
            Some(w) => w,
            None => {
                return Err(WineError::WineNotFound);
            },
        },
    };
    let wine = match probe.wine {
        Some(w) => w,
        None => first.clone(),
    };
    let wine_dir = match probe.wine_dir {
        Some(d) => d,
        None => "/usr".to_owned(),
    };
    let wineserver = match probe.wineserver {
        Some(w) => w,
        None => join_below(wine_dir.as_str(), "bin/wineserver"),
    };
    let wineboot = match probe.wineboot {
        Some(w) => w,
        None => join_below(wine_dir.as_str(), "bin/wineboot"),
    };
    let winetricks = match probe.winetricks {
        Some(w) => w,
        None => {
            return Err(WineError::WinetricksNotFound);
        },
    };
    Ok(
        WinePaths {
            wine,
            wine64: first,
            wineserver,
            wineboot,
            winetricks,
            wine_dir,
            is_bundled: false,
        },
    )
}

/// Whether the installation that ships with the launcher can be used: it
/// has a wine binary and its wineserver.
pub open spec fn bundled_usable(has_wine64: bool, has_wine: bool, has_wineserver: bool) -> bool {
    (has_wine || has_wine64) && has_wineserver
}

/// The paths of the installation that ships with the launcher. Its
/// binaries are in its `bin`; each of the two wine binaries stands in for
/// the other where only one is there. Winetricks is the one that ships with
/// the launcher, else the one on the search path.
pub open spec fn bundled_paths(
    wine_dir: Seq<char>,
    has_wine64: bool,
    has_wine: bool,
    winetricks: Seq<char>,
) -> WinePathsView {
    let bin = below(wine_dir, "bin"@);
    let wine64 = if has_wine64 {
        below(bin, "wine64"@)
    } else {
        below(bin, "wine"@)
    };
    WinePathsView {
        wine: if has_wine {
            below(bin, "wine"@)
        } else {
            wine64
        },
        wine64,
        wineserver: below(bin, "wineserver"@),
        wineboot: below(bin, "wineboot"@),
        winetricks,
        wine_dir,
        is_bundled: true,
    }
}

/// Resolves the paths to use: those of the installation that ships with
/// the launcher where it can be used, which fails where winetricks is
/// nowhere; those of the system's own installation otherwise.
pub fn resolve_wine_paths(
    bundled: Option<BundledProbe>,
    bundled_winetricks: Option<String>,
    system: SystemProbe,
) -> (r: Result<WinePaths, WineError>)
    ensures
        paths_view(r) == match bundled {
            Some(b) if bundled_usable(b.has_wine64, b.has_wine, b.has_wineserver) => match or_else(
                opt_view(bundled_winetricks),
                opt_view(system.winetricks),
            ) {
                Some(tricks) => Ok(bundled_paths(b.wine_dir@, b.has_wine64, b.has_wine, tricks)),
                None => Err(WineErrorView::WinetricksNotFound),
            },
            _ => system_paths(
                opt_view(system.wine64),
                opt_view(system.wine),
                opt_view(system.wineserver),
                opt_view(system.wineboot),
                opt_view(system.winetricks),
                opt_view(system.wine_dir),
            ),
        },
{
    match bundled {
        Some(b) => {
            if (b.has_wine || b.has_wine64) && b.has_wineserver {
                let winetricks = match bundled_winetricks {
                    Some(w) => w,
                    None => match system.winetricks {
                        Some(w) => w,
                        None => {
                            return Err(WineError::WinetricksNotFound);
                        },
                    },
                };
                let bin = join_below(b.wine_dir.as_str(), "bin");
                let wine64 = if b.has_wine64 {
                    join_below(bin.as_str(), "wine64")
                } else {
                    join_below(bin.as_str(), "wine")
                };
                let wine = if b.has_wine {
                    join_below(bin.as_str(), "wine")
                } else {
                    wine64.clone()
                };
                return Ok(
                    WinePaths {
                        wine,
                        wine64,
                        wineserver: join_below(bin.as_str(), "wineserver"),
                        wineboot: join_below(bin.as_str(), "wineboot"),
                        winetricks,
                        wine_dir: b.wine_dir,
                        is_bundled: true,
                    },
                );
            }
        },
        None => {},
    }
    resolve_system_wine_paths(system)
}

/// The status that the looks at the system add up to. Paths that cannot be
/// resolved, and a wine that cannot be run, are reported as the error, and
/// nothing else is known then. Else wine is installed, with its version;
/// and what was found of winetricks and of the prefix is reported, a prefix
/// that could not be located counting as neither initialised nor equipped.
pub open spec fn prefix_status(
    paths: Result<(), WineErrorView>,
    wine: Result<(Seq<char>, bool), WineErrorView>,
    winetricks_installed: bool,
    prefix: Option<(bool, bool)>,
) -> WineStatusView {
    match paths {
        Err(e) => WineStatusView { error: Some(error_message(e)), ..blank_status() },
        Ok(()) => match wine {
            Err(e) => WineStatusView { error: Some(error_message(e)), ..blank_status() },
            Ok((version, meets)) => WineStatusView {
                installed: true,
                version: Some(version),
                meets_minimum_version: meets,
                winetricks_installed,
                prefix_initialized: prefix matches Some(p) && p.0,
                webview2_installed: prefix matches Some(p) && p.1,
                error: None,
            },
        },
    }
}

/// Puts the status of the compatibility layer together. `paths` says
/// whether the paths could be resolved; `wine` is what the look at wine
/// found; `prefix` says whether the prefix is initialised and whether it
/// has the web view, where the prefix could be located.
pub fn check_prefix_status(
    paths: Result<(), WineError>,
    wine: Result<(String, bool), WineError>,
    winetricks_installed: bool,
    prefix: Option<(bool, bool)>,
) -> (s: WineStatus)
    ensures
        s@ == prefix_status(
            match paths {
                Ok(()) => Ok(()),
                Err(e) => Err(e@),
            },
            match wine {
                Ok((v, m)) => Ok((v@, m)),
                Err(e) => Err(e@),
            },
            winetricks_installed,
            prefix,
        ),
{
    let mut status = WineStatus::default();
    match paths {
        Err(e) => {
            status.error = Some(e.message());
            return status;
        },
        Ok(()) => {},
    }
    match wine {
        Err(e) => {
            status.error = Some(e.message());
            return status;
        },
        Ok((version, meets)) => {
            status.installed = true;
            status.version = Some(version);
            status.meets_minimum_version = meets;
        },
    }
    status.winetricks_installed = winetricks_installed;
    match prefix {
        Some((initialized, webview2)) => {
            status.prefix_initialized = initialized;
            status.webview2_installed = webview2;
        },
        None => {},
    }
    status
}

/// Whether the compatibility layer is ready to run the game client: its
/// prefix is initialised and has the web view.
pub fn is_ready(status: &WineStatus) -> (r: bool)
    ensures
        r == (status.prefix_initialized && status.webview2_installed),
{
    status.prefix_initialized && status.webview2_installed
}

/// Where the web view is installed in a prefix, as the components of a path
/// below the prefix.
pub fn check_webview2_installed() -> (parts: Vec<String>)
    ensures
        views(parts@) == seq![
            "drive_c"@,
            "Program Files (x86)"@,
            "Microsoft"@,
            "EdgeWebView"@,
        ],
{
    let a = "drive_c".to_owned();
    let b = "Program Files (x86)".to_owned();
    let c = "Microsoft".to_owned();
    let d = "EdgeWebView".to_owned();
    let parts = vec![a, b, c, d];
    assert(views(parts@) =~= seq![a@, b@, c@, d@]);
    parts
}

/// How a command that was run ended: the cause where it could not be run;
/// else whether it succeeded, and what it wrote as errors.
pub type RunOutcome = Result<(bool, String), String>;

/// The view of how a command ended.
pub open spec fn run_view(r: RunOutcome) -> Result<(bool, Seq<char>), Seq<char>> {
    match r {
        Ok((ok, stderr)) => Ok((ok, stderr@)),
        Err(e) => Err(e@),
    }
}

/// The arguments with which winetricks installs a component, unattended.
pub open spec fn winetricks_args(verb: Seq<char>) -> Seq<Seq<char>> {
    seq!["-q"@, verb]
}

/// What a run of winetricks for a component comes to.
pub open spec fn winetricks_outcome(verb: Seq<char>, run: Result<(bool, Seq<char>), Seq<char>>)
    -> Result<(), WineErrorView> {
    match run {
        Err(e) => Err(WineErrorView::Io(e)),
        Ok((ok, stderr)) => if ok {
            Ok(())
        } else {
            Err(WineErrorView::WinetricksFailed(verb, stderr))
        },
    }
}

/// The view of an outcome without a value.
pub open spec fn unit_view(r: Result<(), WineError>) -> Result<(), WineErrorView> {
    match r {
        Ok(()) => Ok(()),
        Err(e) => Err(e@),
    }
}

/// The arguments for winetricks to install a component.
pub fn run_winetricks_args(verb: &str) -> (args: Vec<String>)
    ensures
        views(args@) == winetricks_args(verb@),
{
    let a = "-q".to_owned();
    let b = verb.to_owned();
    let args = vec![a, b];
    assert(views(args@) =~= seq![a@, b@]);
    args
}

/// Judges a run of winetricks for a component.
pub fn run_winetricks(verb: &str, run: RunOutcome) -> (r: Result<(), WineError>)
    ensures
        unit_view(r) == winetricks_outcome(verb@, run_view(run)),
{
    match run {
        Err(e) => Err(WineError::Io(e)),
        Ok((ok, stderr)) => {
            if ok {
                Ok(())
            } else {
                Err(WineError::WinetricksFailed(verb.to_owned(), stderr))
            }
        },
    }
}

/// The arguments with which wine sets a value of the registry.
pub open spec fn registry_add_args(
    path: Seq<char>,
    key: Seq<char>,
    value: Seq<char>,
    reg_type: Seq<char>,
) -> Seq<Seq<char>> {
    seq!["reg"@, "add"@, path, "/v"@, key, "/t"@, reg_type, "/d"@, value, "/f"@]
}

/// What setting a value of the registry comes to.
pub open spec fn registry_outcome(
    path: Seq<char>,
    key: Seq<char>,
    run: Result<(bool, Seq<char>), Seq<char>>,
) -> Result<(), WineErrorView> {
    match run {
        Err(e) => Err(WineErrorView::Io(e)),
        Ok((ok, stderr)) => if ok {
            Ok(())
        } else {
            Err(
                WineErrorView::RegistryFailed(
                    "Failed to set "@ + path + "\\"@ + key + ": "@ + stderr,
                ),
            )
        },
    }
}

/// The arguments for wine to set a value of the registry.
pub fn set_registry_key_args(path: &str, key: &str, value: &str, reg_type: &str) -> (args: Vec<
    String,
>)
    ensures
        views(args@) == registry_add_args(path@, key@, value@, reg_type@),
{
    let a0 = "reg".to_owned();
    let a1 = "add".to_owned();
    let a2 = path.to_owned();
    let a3 = "/v".to_owned();
    let a4 = key.to_owned();
    let a5 = "/t".to_owned();
    let a6 = reg_type.to_owned();
    let a7 = "/d".to_owned();
    let a8 = value.to_owned();
    let a9 = "/f".to_owned();
    let args = vec![a0, a1, a2, a3, a4, a5, a6, a7, a8, a9];
    assert(views(args@) =~= seq![a0@, a1@, a2@, a3@, a4@, a5@, a6@, a7@, a8@, a9@]);
    args
}

/// Judges the attempt to set a value of the registry.
pub fn set_registry_key(path: &str, key: &str, run: RunOutcome) -> (r: Result<(), WineError>)
    ensures
        unit_view(r) == registry_outcome(path@, key@, run_view(run)),
{
    match run {
        Err(e) => Err(WineError::Io(e)),
        Ok((ok, stderr)) => {
            if ok {
                Ok(())
            } else {
                let mut text = concat3("Failed to set ", path, "\\");
                text.append(key);
                text.append(": ");
                text.append(stderr.as_str());
                Err(WineError::RegistryFailed(text))
            }
        },
    }
}

/// The arguments with which wine asks whether the registry has a value.
pub fn check_registry_key_exists(path: &str, value_name: &str) -> (args: Vec<String>)
    ensures
        views(args@) == seq!["reg"@, "query"@, path@, "/v"@, value_name@],
{
    let a0 = "reg".to_owned();
    let a1 = "query".to_owned();
    let a2 = path.to_owned();
    let a3 = "/v".to_owned();
    let a4 = value_name.to_owned();
    let args = vec![a0, a1, a2, a3, a4];
    assert(views(args@) =~= seq![a0@, a1@, a2@, a3@, a4@]);
    args
}

/// The arguments with which wine ends a process of the prefix by force.
pub fn kill_wine_process(process_name: &str) -> (args: Vec<String>)
    ensures
        views(args@) == seq!["taskkill"@, "/f"@, "/im"@, process_name@],
{
    let a0 = "taskkill".to_owned();
    let a1 = "/f".to_owned();
    let a2 = "/im".to_owned();
    let a3 = process_name.to_owned();
    let args = vec![a0, a1, a2, a3];
    assert(views(args@) =~= seq![a0@, a1@, a2@, a3@]);
    args
}

/// A command of the compatibility layer, ready to be started: the program,
/// its arguments, and the environment to add, a later entry for a name
/// taking the place of an earlier one.
#[derive(Debug)]
pub struct WineCommand {
    pub program: String,
    pub args: Vec<String>,
    pub env: Vec<(String, String)>,
}

/// The environment of a command that runs in a prefix: the prefix, then
/// the environment of every command of the compatibility layer.
pub open spec fn prefix_env(paths: WinePathsView, prefix: Seq<char>, existing_ld_path: Seq<char>)
    -> Seq<(Seq<char>, Seq<char>)> {
    seq![("WINEPREFIX"@, prefix)] + env_vars(paths, existing_ld_path)
}

/// Appends copies of names and values to a list.
fn append_pairs(to: &mut Vec<(String, String)>, pairs: &Vec<(String, String)>)
    ensures
        pair_views(final(to)@) == pair_views(old(to)@) + pair_views(pairs@),
{
    let ghost start = pair_views(to@);
    let mut i: usize = 0;
    assert(start + pair_views(pairs@).take(0) =~= start);
    while i < pairs.len()
        invariant
            i <= pairs.len(),
            pair_views(to@) == start + pair_views(pairs@).take(i as int),
        decreases pairs.len() - i,
    {
        let ghost before = pair_views(to@);
        let p = (pairs[i].0.clone(), pairs[i].1.clone());
        let ghost pv = (p.0@, p.1@);
        to.push(p);
        assert(pair_views(to@) == before.push(pv));
        assert(pair_views(pairs@).take(i + 1) == pair_views(pairs@).take(i as int).push(pv));
        assert(start + pair_views(pairs@).take(i + 1) =~= (start + pair_views(pairs@).take(
            i as int,
        )).push(pv));
        i += 1;
    }
    assert(pair_views(pairs@).take(pairs.len() as int) == pair_views(pairs@));
}

/// Copies a list of strings.
fn copy_strings(list: &Vec<String>) -> (r: Vec<String>)
    ensures
        views(r@) == views(list@),
{
    let mut r: Vec<String> = Vec::new();
    let mut i: usize = 0;
    assert(views(r@) =~= views(list@).take(0));
    while i < list.len()
        invariant
            i <= list.len(),
            views(r@) == views(list@).take(i as int),
        decreases list.len() - i,
    {
        let ghost before = views(r@);
        let c = list[i].clone();
        r.push(c);
        assert(views(r@) == before.push(c@));
        assert(views(list@).take(i + 1) == views(list@).take(i as int).push(c@));
        i += 1;
    }
    assert(views(list@).take(list.len() as int) == views(list@));
    r
}

/// The command that runs wine in a prefix with the given arguments.
pub fn run_wine_command(paths: &WinePaths, prefix: &str, existing_ld_path: &str, args: &Vec<String>)
    -> (c: WineCommand)
    ensures
        c.program@ == paths@.wine,
        views(c.args@) == views(args@),
        pair_views(c.env@) == prefix_env(paths@, prefix@, existing_ld_path@),
{
    let first = ("WINEPREFIX".to_owned(), prefix.to_owned());
    let mut env = vec![first];
    assert(pair_views(env@) =~= seq![("WINEPREFIX"@, prefix@)]);
    let vars = paths.get_env_vars(existing_ld_path);
    append_pairs(&mut env, &vars);
    WineCommand { program: paths.wine.clone(), args: copy_strings(args), env }
}

/// The command that starts an executable through wine: the executable
/// comes first among the arguments; the caller's environment comes last, so
/// that it wins.
pub fn launch_with_wine(
    paths: &WinePaths,
    prefix: &str,
    existing_ld_path: &str,
    exe_path: &str,
    args: &Vec<String>,
    env_vars: &Vec<(String, String)>,
) -> (c: WineCommand)
    ensures
        c.program@ == paths@.wine,
        views(c.args@) == seq![exe_path@] + views(args@),
        pair_views(c.env@) == prefix_env(paths@, prefix@, existing_ld_path@) + pair_views(
            env_vars@,
        ),
{
    let base = run_wine_command(paths, prefix, existing_ld_path, args);
    let mut env = base.env;
    append_pairs(&mut env, env_vars);
    let exe = exe_path.to_owned();
    let mut all = vec![exe];
    assert(views(all@) =~= seq![exe_path@]);
    let mut i: usize = 0;
    assert(views(args@).take(0) =~= Seq::<Seq<char>>::empty());
    assert(seq![exe_path@] + views(args@).take(0) =~= seq![exe_path@]);
    while i < args.len()
        invariant
            i <= args.len(),
            views(all@) == seq![exe_path@] + views(args@).take(i as int),
        decreases args.len() - i,
    {
        let ghost before = views(all@);
        let a = args[i].clone();
        all.push(a);
        assert(views(all@) == before.push(a@));
        assert(views(args@).take(i + 1) == views(args@).take(i as int).push(a@));
        assert(seq![exe_path@] + views(args@).take(i + 1) =~= (seq![exe_path@] + views(
            args@,
        ).take(i as int)).push(a@));
        i += 1;
    }
    assert(views(args@).take(args.len() as int) == views(args@));
    WineCommand { program: base.program, args: all, env }
}

/// The failure of a start through wine, with its cause.
pub fn launch_failure(cause: String) -> (e: WineError)
    ensures
        e@ == WineErrorView::LaunchFailed(cause@),
{
    WineError::LaunchFailed(cause)
}

} // verus!
