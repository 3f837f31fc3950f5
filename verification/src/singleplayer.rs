//! Single-player mode: the game build that is fetched from the project's
//! releases, what is installed of it, and how it is started.

use vstd::prelude::*;
use crate::byond::{opt_str_view, Platform};
use crate::byond::ByondVersionInfo;
use crate::servers::{opt_view};
use crate::text::{
    concat2, concat3, ends_with, has_suffix, replace_char, replaced, split, split_on, str_eq,
    strip_prefix, trim, trimmed, views, without_prefix,
};

verus! {

/// The name of the asset of a release that holds the game build.
pub open spec fn build_asset_name() -> Seq<char> {
    "colonialmarines-build.tar.zst"@
}

/// What is installed of the single-player build.
#[derive(Debug)]
pub struct SinglePlayerStatus {
    pub installed: bool,
    pub version: Option<String>,
    pub release_tag: Option<String>,
    pub path: Option<String>,
}

/// A release of the game build.
#[derive(Debug)]
pub struct ReleaseInfo {
    pub tag_name: String,
    pub name: String,
    pub published_at: String,
    pub download_url: Option<String>,
    pub size: Option<u64>,
}

/// One asset of a release: its name, where to download it, and its size.
#[derive(Debug)]
pub struct ReleaseAsset {
    pub name: String,
    pub browser_download_url: String,
    pub size: u64,
}

/// What is installed, as mathematical values.
pub struct SinglePlayerStatusView {
    pub installed: bool,
    pub version: Option<Seq<char>>,
    pub release_tag: Option<Seq<char>>,
    pub path: Option<Seq<char>>,
}

impl View for SinglePlayerStatus {
    type V = SinglePlayerStatusView;

    open spec fn view(&self) -> SinglePlayerStatusView {
        SinglePlayerStatusView {
            installed: self.installed,
            version: opt_view(self.version),
            release_tag: opt_view(self.release_tag),
            path: opt_view(self.path),
        }
    }
}

/// The status that a look at the disk gives: nothing is installed where the
/// directory of the build is not there or holds no version file; else the
/// version that the file names is installed, in that directory.
pub open spec fn status_of(base_exists: bool, base_dir: Seq<char>, version: Option<Seq<char>>)
    -> SinglePlayerStatusView {
    if !base_exists || version is None {
        SinglePlayerStatusView { installed: false, version: None, release_tag: None, path: None }
    } else {
        SinglePlayerStatusView {
            installed: true,
            version,
            release_tag: version,
            path: Some(base_dir),
        }
    }
}

/// Tells what is installed of the single-player build. `version` is what
/// the version file holds, where it is there and can be read.
pub fn get_singleplayer_status(base_exists: bool, base_dir: &str, version: Option<String>) -> (s:
    SinglePlayerStatus)
    ensures
        s@ == status_of(base_exists, base_dir@, opt_view(version)),
{
    if !base_exists {
        return SinglePlayerStatus { installed: false, version: None, release_tag: None, path: None };
    }
    match version {
        None => SinglePlayerStatus { installed: false, version: None, release_tag: None, path: None },
        Some(v) => SinglePlayerStatus {
            installed: true,
            version: Some(v.clone()),
            release_tag: Some(v),
            path: Some(base_dir.to_owned()),
        },
    }
}

/// The names of a list of assets, in order.
pub open spec fn asset_names(assets: Seq<ReleaseAsset>) -> Seq<Seq<char>> {
    assets.map_values(|a: ReleaseAsset| a.name@)
}

/// What is told of a release: its tag, name and date, and, where it has an
/// asset with the name of the game build, where to download the first such
/// asset and how large it is.
pub fn release_info(
    tag_name: String,
    name: String,
    published_at: String,
    assets: &Vec<ReleaseAsset>,
) -> (r: ReleaseInfo)
    ensures
        r.tag_name@ == tag_name@,
        r.name@ == name@,
        r.published_at@ == published_at@,
        match crate::text::first_equal(asset_names(assets@), build_asset_name()) {
            Some(i) => opt_view(r.download_url) == Some(assets@[i].browser_download_url@) && r.size
                == Some(assets@[i].size),
            None => r.download_url is None && r.size is None,
        },
{
    let ghost names = asset_names(assets@);
    let mut i: usize = 0;
    while i < assets.len()
        invariant
            i <= assets.len(),
            names == asset_names(assets@),
            forall|j: int| 0 <= j < i ==> names[j] != build_asset_name(),
        decreases assets.len() - i,
    {
        if str_eq(assets[i].name.as_str(), "colonialmarines-build.tar.zst") {
            proof {
                assert(names[i as int] == build_asset_name());
                crate::text::lemma_first_equal_is(names, build_asset_name(), i as int);
            }
            return ReleaseInfo {
                tag_name,
                name,
                published_at,
                download_url: Some(assets[i].browser_download_url.clone()),
                size: Some(assets[i].size),
            };
        }
        i += 1;
    }
    proof {
        crate::text::lemma_first_equal_none(names, build_asset_name());
    }
    ReleaseInfo { tag_name, name, published_at, download_url: None, size: None }
}

/// What installing the latest release comes to before anything is fetched.
#[derive(Debug)]
pub enum InstallDecision {
    /// The release is installed already; this is its status.
    UpToDate(SinglePlayerStatus),
    /// The build is to be downloaded from this address; what is installed is
    /// removed first.
    Install { download_url: String },
}

/// The status of a build that is installed, by its release tag and its
/// directory.
pub open spec fn installed_status_of(tag: Seq<char>, base_dir: Seq<char>) -> SinglePlayerStatusView {
    SinglePlayerStatusView {
        installed: true,
        version: Some(tag),
        release_tag: Some(tag),
        path: Some(base_dir),
    }
}

/// The status of a build that is installed.
pub fn installed_status(tag: &str, base_dir: &str) -> (s: SinglePlayerStatus)
    ensures
        s@ == installed_status_of(tag@, base_dir@),
{
    SinglePlayerStatus {
        installed: true,
        version: Some(tag.to_owned()),
        release_tag: Some(tag.to_owned()),
        path: Some(base_dir.to_owned()),
    }
}

/// Decides what installing a release comes to. A release without the game
/// build cannot be installed. A release whose tag is the installed version
/// is left as it is. Any other is downloaded.
pub fn install_singleplayer(release: &ReleaseInfo, installed_version: Option<&str>, base_dir: &str)
    -> (r: Result<InstallDecision, String>)
    ensures
        match release.download_url {
            None => r matches Err(message) && message@ == "Release "@ + release.tag_name@
                + " does not contain "@ + build_asset_name(),
            Some(url) => if opt_str_view(installed_version) == Some(release.tag_name@) {
                r matches Ok(InstallDecision::UpToDate(status)) && status@ == installed_status_of(
                    release.tag_name@,
                    base_dir@,
                )
            } else {
                r matches Ok(InstallDecision::Install { download_url }) && download_url@ == url@
            },
        },
{
    let url = match &release.download_url {
        None => {
            let mut message = concat3("Release ", release.tag_name.as_str(), " does not contain ");
            message.append("colonialmarines-build.tar.zst");
            return Err(message);
        },
        Some(url) => url,
    };
    match installed_version {
        Some(v) => {
            if str_eq(v, release.tag_name.as_str()) {
                return Ok(InstallDecision::UpToDate(installed_status(v, base_dir)));
            }
        },
        None => {},
    }
    Ok(InstallDecision::Install { download_url: url.clone() })
}

/// The line that sets the major part of the runtime version.
pub open spec fn major_key() -> Seq<char> {
    "export BYOND_MAJOR="@
}

/// The line that sets the minor part of the runtime version.
pub open spec fn minor_key() -> Seq<char> {
    "export BYOND_MINOR="@
}

/// What the first `n` lines of a script set a key to: what follows the key
/// on the last line that, without surrounding white space, begins with it.
pub open spec fn setting_in(lines: Seq<Seq<char>>, key: Seq<char>, n: int) -> Option<Seq<char>>
    decreases n,
{
    if n <= 0 {
        None
    } else {
        match strip_prefix(trimmed(lines[n - 1]), key) {
            Some(value) => Some(value),
            None => setting_in(lines, key, n - 1),
        }
    }
}

/// The runtime version that a dependency script asks for: its major and
/// minor part around a dot, where the script sets both.
pub open spec fn version_in(script: Seq<char>) -> Option<Seq<char>> {
    let lines = split_on(script, '\n');
    match (
        setting_in(lines, major_key(), lines.len() as int),
        setting_in(lines, minor_key(), lines.len() as int),
    ) {
        (Some(major), Some(minor)) => Some(major + "."@ + minor),
        _ => None,
    }
}

/// Reads the runtime version out of a dependency script.
pub fn parse_dependencies(script: &str) -> (r: Option<String>)
    ensures
        opt_view(r) == version_in(script@),
{
    let lines = split(script, '\n');
    let mut major: Option<String> = None;
    let mut minor: Option<String> = None;
    let mut i: usize = 0;
    while i < lines.len()
        invariant
            i <= lines.len(),
            opt_view(major) == setting_in(views(lines@), major_key(), i as int),
            opt_view(minor) == setting_in(views(lines@), minor_key(), i as int),
        decreases lines.len() - i,
    {
        let line = trim(lines[i].as_str());
        assert(views(lines@)[i as int] == lines@[i as int]@);
        match without_prefix(line.as_str(), "export BYOND_MAJOR=") {
            Some(value) => {
                major = Some(value);
            },
            None => {},
        }
        match without_prefix(line.as_str(), "export BYOND_MINOR=") {
            Some(value) => {
                minor = Some(value);
            },
            None => {},
        }
        i += 1;
    }
    match (major, minor) {
        (Some(major), Some(minor)) => Some(concat3(major.as_str(), ".", minor.as_str())),
        _ => None,
    }
}

/// The runtime version that the installed build asks for, or why it cannot
/// be told. `script` is nothing where the dependency script is not there,
/// the cause where it cannot be read, and what it holds otherwise.
pub fn get_byond_version_from_dependencies(script: Option<Result<&str, String>>) -> (r: Result<
    String,
    String,
>)
    ensures
        match script {
            None => r matches Err(m) && m@
                == "dependencies.sh not found in singleplayer installation"@,
            Some(Err(cause)) => r matches Err(m) && m@ == "Failed to read dependencies.sh: "@
                + cause@,
            Some(Ok(text)) => match version_in(text@) {
                Some(version) => r matches Ok(v) && v@ == version,
                None => r matches Err(m) && m@
                    == "Could not parse BYOND version from dependencies.sh"@,
            },
        },
{
    match script {
        None => Err("dependencies.sh not found in singleplayer installation".to_owned()),
        Some(Err(cause)) => Err(concat2("Failed to read dependencies.sh: ", cause.as_str())),
        Some(Ok(text)) => match parse_dependencies(text) {
            Some(version) => Ok(version),
            None => Err("Could not parse BYOND version from dependencies.sh".to_owned()),
        },
    }
}

/// The name of the compiled game that is looked for first.
pub open spec fn main_dmb() -> Seq<char> {
    "colonialmarines.dmb"@
}

/// Whether a file name has the extension of a compiled game.
pub open spec fn is_dmb(name: Seq<char>) -> bool {
    name.len() > 4 && ends_with(name, ".dmb"@)
}

/// Position of the first of `names` that stands for a compiled game, up to
/// position `n`.
pub open spec fn first_dmb(names: Seq<Seq<char>>, n: int) -> Option<int>
    decreases n,
{
    if n <= 0 {
        None
    } else {
        match first_dmb(names, n - 1) {
            Some(i) => Some(i),
            None => if is_dmb(names[n - 1]) {
                Some(n - 1)
            } else {
                None
            },
        }
    }
}

/// The compiled game to start, by name, or why there is none. The build
/// must be installed. The main file is taken where it is there; else the
/// first file of the directory with the extension of a compiled game.
pub fn find_dmb_file(installed: bool, main_exists: bool, listing: Result<Vec<String>, String>) -> (r:
    Result<String, String>)
    ensures
        if !installed {
            r matches Err(m) && m@ == "Single player not installed"@
        } else if main_exists {
            r matches Ok(name) && name@ == main_dmb()
        } else {
            match listing {
                Err(cause) => r matches Err(m) && m@ == "Failed to read singleplayer directory: "@
                    + cause@,
                Ok(names) => match first_dmb(views(names@), names.len() as int) {
                    Some(i) => r matches Ok(name) && name@ == names@[i]@,
                    None => r matches Err(m) && m@
                        == "No .dmb file found in singleplayer installation"@,
                },
            }
        },
{
    if !installed {
        return Err("Single player not installed".to_owned());
    }
    if main_exists {
        return Ok("colonialmarines.dmb".to_owned());
    }
    let names = match listing {
        Err(cause) => {
            return Err(concat2("Failed to read singleplayer directory: ", cause.as_str()));
        },
        Ok(names) => names,
    };
    let mut i: usize = 0;
    while i < names.len()
        invariant
            i <= names.len(),
            installed,
            !main_exists,
            listing == Ok::<Vec<String>, String>(names),
            first_dmb(views(names@), i as int) is None,
        decreases names.len() - i,
    {
        assert(views(names@)[i as int] == names@[i as int]@);
        if names[i].as_str().unicode_len() > 4 && has_suffix(names[i].as_str(), ".dmb") {
            proof {
                assert(first_dmb(views(names@), i + 1) == Some(i as int));
                lemma_first_dmb_stays(views(names@), i + 1, names.len() as int);
            }
            return Ok(names[i].clone());
        }
        i += 1;
    }
    Err("No .dmb file found in singleplayer installation".to_owned())
}

proof fn lemma_first_dmb_stays(names: Seq<Seq<char>>, n: int, m: int)
    requires
        0 <= n <= m,
        first_dmb(names, n) is Some,
    ensures
        first_dmb(names, m) == first_dmb(names, n),
    decreases m - n,
{
    if n < m {
        lemma_first_dmb_stays(names, n, m - 1);
    }
}

/// The path by which the compatibility layer knows a file of the host: the
/// drive that stands for the host's root, then the path with `\` for `/`.
pub open spec fn wine_path_of(path: Seq<char>) -> Seq<char> {
    "Z:"@ + replace_char(path, '/', '\\')
}

/// Turns a path of the host into the path by which the compatibility layer
/// knows the file.
pub fn wine_path(path: &str) -> (r: String)
    ensures
        r@ == wine_path_of(path@),
{
    let flipped = replaced(path, '/', '\\');
    concat2("Z:", flipped.as_str())
}

/// How the game client is to be started for single-player mode.
#[derive(Debug)]
pub struct SinglePlayerLaunch {
    pub executable: String,
    pub args: Vec<String>,
    pub via_wine: bool,
}

/// What starting single-player mode comes to, once the runtime has been
/// installed.
#[derive(Debug)]
pub enum SinglePlayerPlan {
    /// Start the game client this way.
    Start(SinglePlayerLaunch),
    /// There is nothing to start on this system.
    Nothing,
}

/// Plans the start of single-player mode. The runtime must be installed,
/// with the path of its executable known, and a compiled game must have been
/// found. On Windows the game is started directly. On Linux the
/// compatibility layer must be set up, and the game is named by the path
/// that the layer knows it by. macOS is refused; on any other system
/// nothing is started.
pub fn launch_singleplayer(
    byond_version: &str,
    installed: Result<ByondVersionInfo, String>,
    dmb: Result<String, String>,
    platform: Platform,
    wine_ready: bool,
) -> (r: Result<SinglePlayerPlan, String>)
    ensures
        match installed {
            Err(e) => r matches Err(m) && m@ == e@,
            Ok(info) => if !info.installed {
                r matches Err(m) && m@ == "Failed to install BYOND version "@ + byond_version@
            } else if info.path is None {
                r matches Err(m) && m@ == "DreamSeeker path not found"@
            } else {
                match dmb {
                    Err(e) => r matches Err(m) && m@ == e@,
                    Ok(file) => match platform {
                        Platform::Windows => r matches Ok(SinglePlayerPlan::Start(launch))
                            && launch.executable@ == info.path->0@ && !launch.via_wine && views(
                            launch.args@,
                        ) == seq!["-trusted"@, file@],
                        Platform::Linux => if wine_ready {
                            r matches Ok(SinglePlayerPlan::Start(launch)) && launch.executable@
                                == info.path->0@ && launch.via_wine && views(launch.args@)
                                == seq!["-trusted"@, wine_path_of(file@)]
                        } else {
                            r matches Err(m) && m@
                                == "Wine environment not fully configured. Please complete setup first."@
                        },
                        Platform::MacOs => r matches Err(m) && m@
                            == "BYOND is not supported on macOS"@,
                        Platform::Other => r matches Ok(SinglePlayerPlan::Nothing),
                    },
                }
            },
        },
{
    let info = match installed {
        Err(e) => {
            return Err(e);
        },
        Ok(info) => info,
    };
    if !info.installed {
        return Err(concat2("Failed to install BYOND version ", byond_version));
    }
    let executable = match info.path {
        None => {
            return Err("DreamSeeker path not found".to_owned());
        },
        Some(path) => path,
    };
    let file = match dmb {
        Err(e) => {
            return Err(e);
        },
        Ok(file) => file,
    };
    match platform {
        Platform::Windows => {
            let flag = "-trusted".to_owned();
            let args = vec![flag, file];
            assert(views(args@) =~= seq![flag@, file@]);
            Ok(SinglePlayerPlan::Start(SinglePlayerLaunch { executable, args, via_wine: false }))
        },
        Platform::Linux => {
            if !wine_ready {
                return Err(
                    "Wine environment not fully configured. Please complete setup first.".to_owned(),
                );
            }
            let flag = "-trusted".to_owned();
            let known = wine_path(file.as_str());
            let args = vec![flag, known];
            assert(views(args@) =~= seq![flag@, known@]);
            Ok(SinglePlayerPlan::Start(SinglePlayerLaunch { executable, args, via_wine: true }))
        },
        Platform::MacOs => Err("BYOND is not supported on macOS".to_owned()),
        Platform::Other => Ok(SinglePlayerPlan::Nothing),
    }
}

} // verus!
