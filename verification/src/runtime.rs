//! The runtime package manager: where a version of the runtime is fetched
//! from, and the workflow that makes sure it is installed. The workflow is a
//! state machine: it decides, and its driver does the work on disk and on
//! the network and reports how it went.

use vstd::prelude::*;
use crate::archive::{
    all_readable, entry_failure_prefix, entry_views, open_failure_prefix, plan_of,
    plan_zip_extraction, readable_entries, step_views, zip_listing, ExtractStep, ExtractStepView,
    ZipEntry, ZipEntryView,
};
use crate::byond::{runs_game, ByondVersionInfo, Platform};
use crate::digest::{verification, verify_sha256};
use crate::servers::opt_view;
use crate::text::{concat2, concat3, split, split_on, starts_with, views};

verus! {

/// Where versions of the runtime are downloaded from first.
pub open spec fn primary_base() -> Seq<char> {
    "https://www.byond.com/download/build/"@
}

/// Where they are downloaded from when the first place fails.
pub open spec fn fallback_base() -> Seq<char> {
    "https://byond-builds.dm-lang.org/"@
}

/// What follows the version in the name of a package.
pub open spec fn package_suffix() -> Seq<char> {
    "_package.zip"@
}

/// Whether a version is well formed: exactly two parts around one dot.
pub open spec fn is_version(version: Seq<char>) -> bool {
    split_on(version, '.').len() == 2
}

/// The address of a version's package below a base: the major part of the
/// version as a directory, then the version and the suffix as the file name.
pub open spec fn package_url(base: Seq<char>, version: Seq<char>) -> Seq<char> {
    base + split_on(version, '.')[0] + "/"@ + version + package_suffix()
}

/// The message for a version that is not well formed.
pub open spec fn version_format_message(version: Seq<char>) -> Seq<char> {
    "Invalid BYOND version format: "@ + version
}

/// The two addresses of a version's package, the primary one first; or the
/// message that says that the version is not well formed.
pub open spec fn download_urls(version: Seq<char>) -> Result<(Seq<char>, Seq<char>), Seq<char>> {
    if is_version(version) {
        Ok((package_url(primary_base(), version), package_url(fallback_base(), version)))
    } else {
        Err(version_format_message(version))
    }
}

/// The view of a pair of addresses, or of the message in their place.
pub open spec fn urls_view(r: Result<(String, String), String>) -> Result<
    (Seq<char>, Seq<char>),
    Seq<char>,
> {
    match r {
        Ok((a, b)) => Ok((a@, b@)),
        Err(e) => Err(e@),
    }
}

/// Derives the primary and the fallback address of a version's package.
/// A version that does not have exactly two parts around one dot is refused.
pub fn get_byond_download_urls(version: &str) -> (r: Result<(String, String), String>)
    ensures
        urls_view(r) == download_urls(version@),
{
    let parts = split(version, '.');
    if parts.len() != 2 {
        return Err(concat2("Invalid BYOND version format: ", version));
    }
    let major = parts[0].as_str();
    let mut primary = concat3("https://www.byond.com/download/build/", major, "/");
    primary.append(version);
    primary.append("_package.zip");
    let mut fallback = concat3("https://byond-builds.dm-lang.org/", major, "/");
    fallback.append(version);
    fallback.append("_package.zip");
    Ok((primary, fallback))
}

/// Where the trust service answers for the digest of a version's package.
pub open spec fn digest_url(version: Seq<char>) -> Seq<char> {
    "https://db.cm-ss13.com/api/ByondHash?byond_ver="@ + version
}

/// The address at which the expected digest of a version's package is asked.
pub fn get_digest_url(version: &str) -> (url: String)
    ensures
        url@ == digest_url(version@),
{
    concat2("https://db.cm-ss13.com/api/ByondHash?byond_ver=", version)
}

/// What a look at the disk says of a version: installed, with the path of
/// the executable, where the executable is there; not installed, without a
/// path, where it is not.
pub fn check_byond_version(version: String, executable: String, exists: bool) -> (info:
    ByondVersionInfo)
    ensures
        info.version@ == version@,
        info.installed == exists,
        opt_view(info.path) == (if exists {
            Some(executable@)
        } else {
            None
        }),
{
    ByondVersionInfo {
        version,
        installed: exists,
        path: if exists {
            Some(executable)
        } else {
            None
        },
    }
}

/// What the installer is waiting for.
#[derive(Debug, Clone, Copy, PartialEq, Eq, Structural)]
pub enum InstallPhase {
    /// Nothing yet: the installation has not begun.
    Idle,
    /// A first look at the disk.
    Checking,
    /// The version's directory to be created.
    Preparing,
    /// The download from the primary address.
    DownloadingPrimary,
    /// The download from the fallback address.
    DownloadingFallback,
    /// The expected digest from the trust service.
    FetchingDigest,
    /// The download to be saved temporarily.
    Persisting,
    /// The archive to be unpacked.
    Extracting,
    /// The saved download to be removed.
    Cleaning,
    /// The platform's own step after unpacking.
    PostInstall,
    /// A second look at the disk.
    Rechecking,
    /// Nothing more: the installation has ended.
    Finished,
}

/// How far the integrity of a download was checked.
#[derive(Debug, Clone, Copy, PartialEq, Eq, Structural)]
pub enum Integrity {
    /// Nothing was downloaded, so there was nothing to check.
    NotNeeded,
    /// The digest of the download is the expected one.
    Verified,
    /// No expected digest could be had; the download was accepted unchecked.
    Unverified,
}

/// What went wrong while unpacking.
#[derive(Debug, Clone, Copy, PartialEq, Eq, Structural)]
pub enum ExtractFault {
    CreateDirectory,
    CreateParentDirectory,
    CreateFile,
    WriteFile,
}

/// How an installation ended well: what the disk says of the version now,
/// and how far the integrity of the download was checked.
#[derive(Debug)]
pub struct InstallReport {
    pub info: ByondVersionInfo,
    pub integrity: Integrity,
}

/// What the driver of an installation is to do next.
#[derive(Debug)]
pub enum InstallCommand {
    /// Look whether the version's executable is on disk.
    CheckInstalled,
    /// Create the version's directory, with its parents.
    CreateVersionDir,
    /// Download the package from this address.
    Download { url: String },
    /// Ask the trust service at this address for the expected digest.
    FetchDigest { url: String },
    /// Save the download, which the installer holds, to a temporary file in
    /// the version's directory.
    PersistDownload,
    /// Write these steps, each with the content of the entry it names, below
    /// the version's directory; permission bits are set as far as possible.
    Extract { entries: Vec<ZipEntry>, plan: Vec<ExtractStep> },
    /// Remove the temporary file, as far as possible.
    RemoveDownload,
    /// Run the platform's own step after unpacking, as far as possible.
    PostInstall,
    /// The installation has ended, this way.
    Finish(Result<InstallReport, String>),
    /// Nothing: the installation has not begun, has ended, or is waiting for
    /// the report on a command that cannot be repeated.
    Nothing,
}

/// What the driver of an installation reports back.
#[derive(Debug)]
pub enum InstallInput {
    /// Begin the installation.
    Begin,
    /// The path of the version's executable, and whether it is on disk.
    Checked { executable: String, exists: bool },
    /// Whether the version's directory could be created.
    DirectoryCreated(Result<(), String>),
    /// The downloaded bytes, or why there are none.
    Downloaded(Result<Vec<u8>, String>),
    /// The expected digest in hexadecimal; nothing where the trust service
    /// has none; or why it could not be asked.
    Digest(Result<Option<String>, String>),
    /// Whether the download could be saved.
    Persisted(Result<(), String>),
    /// Whether the archive could be unpacked; else what failed, and why.
    Extracted(Result<(), (ExtractFault, String)>),
    /// The temporary file has been dealt with.
    DownloadRemoved,
    /// The platform's own step has been dealt with.
    PostInstalled,
}

/// The state of one installation.
#[derive(Debug)]
pub struct Installer {
    pub version: String,
    pub phase: InstallPhase,
    /// Why the primary download failed, once it has.
    pub primary_error: String,
    /// The fallback address, once derived.
    pub fallback_url: String,
    /// The downloaded bytes, while they are held.
    pub download: Vec<u8>,
    pub integrity: Integrity,
}

/// A report of the disk as mathematical values.
pub struct VersionInfoView {
    pub version: Seq<char>,
    pub installed: bool,
    pub path: Option<Seq<char>>,
}

impl View for ByondVersionInfo {
    type V = VersionInfoView;

    open spec fn view(&self) -> VersionInfoView {
        VersionInfoView {
            version: self.version@,
            installed: self.installed,
            path: opt_view(self.path),
        }
    }
}

/// An installer's command as mathematical values.
pub enum InstallCommandView {
    CheckInstalled,
    CreateVersionDir,
    Download { url: Seq<char> },
    FetchDigest { url: Seq<char> },
    PersistDownload,
    Extract { entries: Seq<ZipEntryView>, plan: Seq<ExtractStepView> },
    RemoveDownload,
    PostInstall,
    Finish(Result<(VersionInfoView, Integrity), Seq<char>>),
    Nothing,
}

impl View for InstallCommand {
    type V = InstallCommandView;

    open spec fn view(&self) -> InstallCommandView {
        match self {
            InstallCommand::CheckInstalled => InstallCommandView::CheckInstalled,
            InstallCommand::CreateVersionDir => InstallCommandView::CreateVersionDir,
            InstallCommand::Download { url } => InstallCommandView::Download { url: url@ },
            InstallCommand::FetchDigest { url } => InstallCommandView::FetchDigest { url: url@ },
            InstallCommand::PersistDownload => InstallCommandView::PersistDownload,
            InstallCommand::Extract { entries, plan } => InstallCommandView::Extract {
                entries: entry_views(entries@),
                plan: step_views(plan@),
            },
            InstallCommand::RemoveDownload => InstallCommandView::RemoveDownload,
            InstallCommand::PostInstall => InstallCommandView::PostInstall,
            InstallCommand::Finish(outcome) => InstallCommandView::Finish(
                match outcome {
                    Ok(report) => Ok((report.info@, report.integrity)),
                    Err(e) => Err(e@),
                },
            ),
            InstallCommand::Nothing => InstallCommandView::Nothing,
        }
    }
}

/// A report of the driver as mathematical values.
pub enum InstallInputView {
    Begin,
    Checked { executable: Seq<char>, exists: bool },
    DirectoryCreated(Result<(), Seq<char>>),
    Downloaded(Result<Seq<u8>, Seq<char>>),
    Digest(Result<Option<Seq<char>>, Seq<char>>),
    Persisted(Result<(), Seq<char>>),
    Extracted(Result<(), (ExtractFault, Seq<char>)>),
    DownloadRemoved,
    PostInstalled,
}

impl View for InstallInput {
    type V = InstallInputView;

    open spec fn view(&self) -> InstallInputView {
        match self {
            InstallInput::Begin => InstallInputView::Begin,
            InstallInput::Checked { executable, exists } => InstallInputView::Checked {
                executable: executable@,
                exists: *exists,
            },
            InstallInput::DirectoryCreated(r) => InstallInputView::DirectoryCreated(
                match r {
                    Ok(()) => Ok(()),
                    Err(e) => Err(e@),
                },
            ),
            InstallInput::Downloaded(r) => InstallInputView::Downloaded(
                match r {
                    Ok(bytes) => Ok(bytes@),
                    Err(e) => Err(e@),
                },
            ),
            InstallInput::Digest(r) => InstallInputView::Digest(
                match r {
                    Ok(d) => Ok(opt_view(*d)),
                    Err(e) => Err(e@),
                },
            ),
            InstallInput::Persisted(r) => InstallInputView::Persisted(
                match r {
                    Ok(()) => Ok(()),
                    Err(e) => Err(e@),
                },
            ),
            InstallInput::Extracted(r) => InstallInputView::Extracted(
                match r {
                    Ok(()) => Ok(()),
                    Err((fault, e)) => Err((*fault, e@)),
                },
            ),
            InstallInput::DownloadRemoved => InstallInputView::DownloadRemoved,
            InstallInput::PostInstalled => InstallInputView::PostInstalled,
        }
    }
}

/// The state of an installation as mathematical values.
pub struct InstallerView {
    pub version: Seq<char>,
    pub phase: InstallPhase,
    pub primary_error: Seq<char>,
    pub fallback_url: Seq<char>,
    pub download: Seq<u8>,
    pub integrity: Integrity,
}

impl View for Installer {
    type V = InstallerView;

    open spec fn view(&self) -> InstallerView {
        InstallerView {
            version: self.version@,
            phase: self.phase,
            primary_error: self.primary_error@,
            fallback_url: self.fallback_url@,
            download: self.download@,
            integrity: self.integrity,
        }
    }
}

/// What one step of an installation comes to: the state after it, and what
/// the driver is to do next.
#[derive(Debug)]
pub struct InstallStep {
    pub installer: Installer,
    pub command: InstallCommand,
}

/// A step of an installation as mathematical values.
pub struct InstallStepView {
    pub installer: InstallerView,
    pub command: InstallCommandView,
}

impl View for InstallStep {
    type V = InstallStepView;

    open spec fn view(&self) -> InstallStepView {
        InstallStepView { installer: self.installer@, command: self.command@ }
    }
}

/// Whether a command has the driver reach out to the network.
pub open spec fn uses_network(command: InstallCommandView) -> bool {
    command is Download || command is FetchDigest
}

/// The step that goes on to another phase.
pub open spec fn install_go(m: InstallerView, phase: InstallPhase, command: InstallCommandView)
    -> InstallStepView {
    InstallStepView { installer: InstallerView { phase, ..m }, command }
}

/// The step that ends an installation with a failure. The download is let go.
pub open spec fn install_fail(m: InstallerView, message: Seq<char>) -> InstallStepView {
    InstallStepView {
        installer: InstallerView {
            phase: InstallPhase::Finished,
            download: Seq::<u8>::empty(),
            ..m
        },
        command: InstallCommandView::Finish(Err(message)),
    }
}

/// The message for a version that is not on disk after all.
pub open spec fn not_installed_message(version: Seq<char>) -> Seq<char> {
    "Failed to install BYOND version "@ + version
}

/// The message for a package that neither address could deliver.
pub open spec fn download_failure_message(
    version: Seq<char>,
    primary_error: Seq<char>,
    fallback_error: Seq<char>,
) -> Seq<char> {
    "Failed to download BYOND version "@ + version + ": primary error: "@ + primary_error
        + ", fallback error: "@ + fallback_error
}

/// The message for a download whose digest is not the expected one.
pub open spec fn integrity_failure_message(version: Seq<char>, cause: Seq<char>) -> Seq<char> {
    "Download integrity verification failed for BYOND "@ + version + ": "@ + cause
}

/// How each fault of unpacking is worded: this, then the cause.
pub open spec fn fault_prefix(fault: ExtractFault) -> Seq<char> {
    match fault {
        ExtractFault::CreateDirectory => "Failed to create directory: "@,
        ExtractFault::CreateParentDirectory => "Failed to create parent directory: "@,
        ExtractFault::CreateFile => "Failed to create file: "@,
        ExtractFault::WriteFile => "Failed to extract file: "@,
    }
}

/// What the first look at the disk decides: a version that is there is
/// reported at once, and nothing is fetched; for one that is not, the two
/// addresses are derived, which fails for a version that is not well formed,
/// and the version's directory is asked for.
pub open spec fn on_first_check(m: InstallerView, executable: Seq<char>, exists: bool)
    -> InstallStepView {
    if exists {
        InstallStepView {
            installer: InstallerView {
                phase: InstallPhase::Finished,
                integrity: Integrity::NotNeeded,
                ..m
            },
            command: InstallCommandView::Finish(
                Ok(
                    (
                        VersionInfoView {
                            version: m.version,
                            installed: true,
                            path: Some(executable),
                        },
                        Integrity::NotNeeded,
                    ),
                ),
            ),
        }
    } else {
        match download_urls(m.version) {
            Err(message) => install_fail(m, message),
            Ok((primary, fallback)) => install_go(
                InstallerView { fallback_url: fallback, ..m },
                InstallPhase::Preparing,
                InstallCommandView::CreateVersionDir,
            ),
        }
    }
}

/// What the second look at the disk decides: the version is reported where
/// it is there now, and the installation has failed where it is not.
pub open spec fn on_recheck(m: InstallerView, executable: Seq<char>, exists: bool)
    -> InstallStepView {
    if exists {
        InstallStepView {
            installer: InstallerView { phase: InstallPhase::Finished, ..m },
            command: InstallCommandView::Finish(
                Ok(
                    (
                        VersionInfoView {
                            version: m.version,
                            installed: true,
                            path: Some(executable),
                        },
                        m.integrity,
                    ),
                ),
            ),
        }
    } else {
        install_fail(m, not_installed_message(m.version))
    }
}

/// What an answer of the trust service decides. Where it gives a digest,
/// the download must have it: else the installation fails, whatever else
/// holds. Where it gives none, or could not be asked, the download is
/// accepted and marked as unverified. An accepted download is saved next.
pub open spec fn on_digest(m: InstallerView, digest: Result<Option<Seq<char>>, Seq<char>>)
    -> InstallStepView {
    match digest {
        Ok(Some(expected)) => match verification(m.download, expected) {
            Ok(()) => install_go(
                InstallerView { integrity: Integrity::Verified, ..m },
                InstallPhase::Persisting,
                InstallCommandView::PersistDownload,
            ),
            Err(cause) => install_fail(m, integrity_failure_message(m.version, cause)),
        },
        _ => install_go(
            InstallerView { integrity: Integrity::Unverified, ..m },
            InstallPhase::Persisting,
            InstallCommandView::PersistDownload,
        ),
    }
}

/// Whether the bytes are an archive of which every entry can be read.
pub open spec fn is_readable_archive(data: Seq<u8>) -> bool {
    zip_listing(data) matches Some(listing) && all_readable(listing)
}

/// What a saved download decides, where it is an archive that can be read:
/// it is unpacked, by the plan that `plan_of` gives for its entries.
pub open spec fn on_persisted_readable(m: InstallerView) -> InstallStepView {
    let listing = zip_listing(m.download)->0;
    InstallStepView {
        installer: InstallerView {
            phase: InstallPhase::Extracting,
            download: Seq::<u8>::empty(),
            ..m
        },
        command: InstallCommandView::Extract {
            entries: readable_entries(listing),
            plan: plan_of(readable_entries(listing), listing.len() as int),
        },
    }
}

/// The command that an installation is waiting on, by its state.
pub open spec fn install_pending(m: InstallerView) -> InstallCommandView {
    match m.phase {
        InstallPhase::Idle => InstallCommandView::Nothing,
        InstallPhase::Checking => InstallCommandView::CheckInstalled,
        InstallPhase::Preparing => InstallCommandView::CreateVersionDir,
        InstallPhase::DownloadingPrimary => InstallCommandView::Download {
            url: package_url(primary_base(), m.version),
        },
        InstallPhase::DownloadingFallback => InstallCommandView::Download { url: m.fallback_url },
        InstallPhase::FetchingDigest => InstallCommandView::FetchDigest {
            url: digest_url(m.version),
        },
        InstallPhase::Persisting => InstallCommandView::PersistDownload,
        InstallPhase::Extracting => InstallCommandView::Nothing,
        InstallPhase::Cleaning => InstallCommandView::RemoveDownload,
        InstallPhase::PostInstall => InstallCommandView::PostInstall,
        InstallPhase::Rechecking => InstallCommandView::CheckInstalled,
        InstallPhase::Finished => InstallCommandView::Nothing,
    }
}

/// The transition function of an installation, but for a saved download
/// that is to be unpacked (see `install_step_holds`). A report that the
/// state is not waiting for changes nothing and has the pending command
/// repeated.
pub open spec fn install_step_spec(m: InstallerView, input: InstallInputView) -> InstallStepView {
    match (m.phase, input) {
        (InstallPhase::Idle, InstallInputView::Begin) => install_go(
            m,
            InstallPhase::Checking,
            InstallCommandView::CheckInstalled,
        ),
        (InstallPhase::Checking, InstallInputView::Checked { executable, exists }) => on_first_check(
            m,
            executable,
            exists,
        ),
        (InstallPhase::Preparing, InstallInputView::DirectoryCreated(r)) => match r {
            Ok(()) => install_go(
                m,
                InstallPhase::DownloadingPrimary,
                InstallCommandView::Download { url: package_url(primary_base(), m.version) },
            ),
            Err(e) => install_fail(m, fault_prefix(ExtractFault::CreateDirectory) + e),
        },
        (InstallPhase::DownloadingPrimary, InstallInputView::Downloaded(r)) => match r {
            Ok(bytes) => install_go(
                InstallerView { download: bytes, ..m },
                InstallPhase::FetchingDigest,
                InstallCommandView::FetchDigest { url: digest_url(m.version) },
            ),
            Err(e) => install_go(
                InstallerView { primary_error: e, ..m },
                InstallPhase::DownloadingFallback,
                InstallCommandView::Download { url: m.fallback_url },
            ),
        },
        (InstallPhase::DownloadingFallback, InstallInputView::Downloaded(r)) => match r {
            Ok(bytes) => install_go(
                InstallerView { download: bytes, ..m },
                InstallPhase::FetchingDigest,
                InstallCommandView::FetchDigest { url: digest_url(m.version) },
            ),
            Err(e) => install_fail(m, download_failure_message(m.version, m.primary_error, e)),
        },
        (InstallPhase::FetchingDigest, InstallInputView::Digest(digest)) => on_digest(m, digest),
        (InstallPhase::Persisting, InstallInputView::Persisted(r)) => match r {
            Ok(()) => on_persisted_readable(m),
            Err(e) => install_fail(m, "Failed to save download: "@ + e),
        },
        (InstallPhase::Extracting, InstallInputView::Extracted(r)) => match r {
            Ok(()) => install_go(m, InstallPhase::Cleaning, InstallCommandView::RemoveDownload),
            Err((fault, e)) => install_fail(m, fault_prefix(fault) + e),
        },
        (InstallPhase::Cleaning, InstallInputView::DownloadRemoved) => install_go(
            m,
            InstallPhase::PostInstall,
            InstallCommandView::PostInstall,
        ),
        (InstallPhase::PostInstall, InstallInputView::PostInstalled) => install_go(
            m,
            InstallPhase::Rechecking,
            InstallCommandView::CheckInstalled,
        ),
        (InstallPhase::Rechecking, InstallInputView::Checked { executable, exists }) => on_recheck(
            m,
            executable,
            exists,
        ),
        _ => InstallStepView { installer: m, command: install_pending(m) },
    }
}

/// What a step of an installation is held to. It is the step that
/// `install_step_spec` gives, with one exception: a download that was saved
/// and then proves to be no archive, or to hold an entry that cannot be
/// read, ends the installation with a failure that is worded by the zip
/// crate after a fixed beginning.
pub open spec fn install_step_holds(m: InstallerView, input: InstallInputView, r: InstallStepView)
    -> bool {
    if m.phase == InstallPhase::Persisting && input == InstallInputView::Persisted(Ok(()))
        && !is_readable_archive(m.download) {
        &&& r.installer == install_fail(m, Seq::<char>::empty()).installer
        &&& r.command matches InstallCommandView::Finish(Err(message))
        &&& starts_with(
            message,
            if zip_listing(m.download) is None {
                open_failure_prefix()
            } else {
                entry_failure_prefix()
            },
        )
    } else {
        r == install_step_spec(m, input)
    }
}

impl Installer {
    /// An installation of the given version that has not begun.
    pub fn new(version: String) -> (m: Installer)
        ensures
            m@.version == version@,
            m@.phase == InstallPhase::Idle,
            m@.integrity == Integrity::NotNeeded,
            m@.download == Seq::<u8>::empty(),
            m@.primary_error == Seq::<char>::empty(),
            m@.fallback_url == Seq::<char>::empty(),
    {
        Installer {
            version,
            phase: InstallPhase::Idle,
            primary_error: String::new(),
            fallback_url: String::new(),
            download: Vec::new(),
            integrity: Integrity::NotNeeded,
        }
    }

    /// Whether the installation has ended.
    pub fn is_finished(&self) -> (r: bool)
        ensures
            r == (self@.phase == InstallPhase::Finished),
    {
        self.phase == InstallPhase::Finished
    }

    fn primary_url(&self) -> (url: String)
        ensures
            url@ == package_url(primary_base(), self@.version),
    {
        let parts = split(self.version.as_str(), '.');
        let mut url = concat3("https://www.byond.com/download/build/", parts[0].as_str(), "/");
        url.append(self.version.as_str());
        url.append("_package.zip");
        url
    }

    /// The command that the installation is waiting on.
    pub fn pending_command(&self) -> (c: InstallCommand)
        ensures
            c@ == install_pending(self@),
    {
        match self.phase {
            InstallPhase::Idle => InstallCommand::Nothing,
            InstallPhase::Checking => InstallCommand::CheckInstalled,
            InstallPhase::Preparing => InstallCommand::CreateVersionDir,
            InstallPhase::DownloadingPrimary => InstallCommand::Download { url: self.primary_url() },
            InstallPhase::DownloadingFallback => InstallCommand::Download {
                url: self.fallback_url.clone(),
            },
            InstallPhase::FetchingDigest => InstallCommand::FetchDigest {
                url: get_digest_url(self.version.as_str()),
            },
            InstallPhase::Persisting => InstallCommand::PersistDownload,
            InstallPhase::Extracting => InstallCommand::Nothing,
            InstallPhase::Cleaning => InstallCommand::RemoveDownload,
            InstallPhase::PostInstall => InstallCommand::PostInstall,
            InstallPhase::Rechecking => InstallCommand::CheckInstalled,
            InstallPhase::Finished => InstallCommand::Nothing,
        }
    }

    fn go(self, phase: InstallPhase, command: InstallCommand) -> (r: InstallStep)
        ensures
            r@ == install_go(self@, phase, command@),
    {
        let mut installer = self;
        installer.phase = phase;
        InstallStep { installer, command }
    }

    fn fail(self, message: String) -> (r: InstallStep)
        ensures
            r@ == install_fail(self@, message@),
    {
        let mut installer = self;
        installer.phase = InstallPhase::Finished;
        installer.download = Vec::new();
        InstallStep { installer, command: InstallCommand::Finish(Err(message)) }
    }

    fn stay(self) -> (r: InstallStep)
        ensures
            r@.installer == self@,
            r@.command == install_pending(self@),
    {
        let command = self.pending_command();
        InstallStep { installer: self, command }
    }

    fn on_first_check(self, executable: String, exists: bool) -> (r: InstallStep)
        ensures
            r@ == on_first_check(self@, executable@, exists),
    {
        if exists {
            let info = check_byond_version(self.version.clone(), executable, true);
            let mut installer = self;
            installer.phase = InstallPhase::Finished;
            installer.integrity = Integrity::NotNeeded;
            InstallStep {
                installer,
                command: InstallCommand::Finish(
                    Ok(InstallReport { info, integrity: Integrity::NotNeeded }),
                ),
            }
        } else {
            match get_byond_download_urls(self.version.as_str()) {
                Err(message) => self.fail(message),
                Ok((primary, fallback)) => {
                    let mut installer = self;
                    installer.fallback_url = fallback;
                    installer.go(InstallPhase::Preparing, InstallCommand::CreateVersionDir)
                },
            }
        }
    }

    fn on_recheck(self, executable: String, exists: bool) -> (r: InstallStep)
        ensures
            r@ == on_recheck(self@, executable@, exists),
    {
        if exists {
            let info = check_byond_version(self.version.clone(), executable, true);
            let integrity = self.integrity;
            let mut installer = self;
            installer.phase = InstallPhase::Finished;
            InstallStep {
                installer,
                command: InstallCommand::Finish(Ok(InstallReport { info, integrity })),
            }
        } else {
            let message = concat2("Failed to install BYOND version ", self.version.as_str());
            self.fail(message)
        }
    }

    fn on_digest(self, digest: Result<Option<String>, String>) -> (r: InstallStep)
        ensures
            r@ == on_digest(
                self@,
                match digest {
                    Ok(d) => Ok(opt_view(d)),
                    Err(e) => Err(e@),
                },
            ),
    {
        match digest {
            Ok(Some(expected)) => {
                match verify_sha256(self.download.as_slice(), expected.as_str()) {
                    Ok(()) => {
                        let mut installer = self;
                        installer.integrity = Integrity::Verified;
                        installer.go(InstallPhase::Persisting, InstallCommand::PersistDownload)
                    },
                    Err(cause) => {
                        let mut message = concat3(
                            "Download integrity verification failed for BYOND ",
                            self.version.as_str(),
                            ": ",
                        );
                        message.append(cause.as_str());
                        self.fail(message)
                    },
                }
            },
            _ => {
                let mut installer = self;
                installer.integrity = Integrity::Unverified;
                installer.go(InstallPhase::Persisting, InstallCommand::PersistDownload)
            },
        }
    }

    fn on_persisted(self) -> (r: InstallStep)
        ensures
            if is_readable_archive(self@.download) {
                r@ == on_persisted_readable(self@)
            } else {
                &&& r@.installer == install_fail(self@, Seq::<char>::empty()).installer
                &&& r@.command matches InstallCommandView::Finish(Err(message))
                &&& starts_with(
                    message,
                    if zip_listing(self@.download) is None {
                        open_failure_prefix()
                    } else {
                        entry_failure_prefix()
                    },
                )
            },
    {
        let mut installer = self;
        let mut data: Vec<u8> = Vec::new();
        std::mem::swap(&mut data, &mut installer.download);
        match plan_zip_extraction(data) {
            Ok((entries, plan)) => installer.go(
                InstallPhase::Extracting,
                InstallCommand::Extract { entries, plan },
            ),
            Err(message) => installer.fail(message),
        }
    }
}

/// The message for a fault of unpacking: how the fault is worded, then the
/// cause.
pub fn fault_message(fault: ExtractFault, cause: &str) -> (message: String)
    ensures
        message@ == fault_prefix(fault) + cause@,
{
    match fault {
        ExtractFault::CreateDirectory => concat2("Failed to create directory: ", cause),
        ExtractFault::CreateParentDirectory => concat2(
            "Failed to create parent directory: ",
            cause,
        ),
        ExtractFault::CreateFile => concat2("Failed to create file: ", cause),
        ExtractFault::WriteFile => concat2("Failed to extract file: ", cause),
    }
}

impl Installer {
    /// One step of an installation: takes what the driver reports and gives
    /// the state after it and the next command.
    pub fn step(self, input: InstallInput) -> (r: InstallStep)
        ensures
            install_step_holds(self@, input@, r@),
    {
        match input {
            InstallInput::Begin => {
                if self.phase == InstallPhase::Idle {
                    self.go(InstallPhase::Checking, InstallCommand::CheckInstalled)
                } else {
                    self.stay()
                }
            },
            InstallInput::Checked { executable, exists } => {
                if self.phase == InstallPhase::Checking {
                    self.on_first_check(executable, exists)
                } else if self.phase == InstallPhase::Rechecking {
                    self.on_recheck(executable, exists)
                } else {
                    self.stay()
                }
            },
            InstallInput::DirectoryCreated(r) => {
                if self.phase == InstallPhase::Preparing {
                    match r {
                        Ok(()) => {
                            let url = self.primary_url();
                            self.go(
                                InstallPhase::DownloadingPrimary,
                                InstallCommand::Download { url },
                            )
                        },
                        Err(e) => {
                            let message = fault_message(ExtractFault::CreateDirectory, e.as_str());
                            self.fail(message)
                        },
                    }
                } else {
                    self.stay()
                }
            },
            InstallInput::Downloaded(r) => {
                if self.phase == InstallPhase::DownloadingPrimary {
                    match r {
                        Ok(bytes) => {
                            let url = get_digest_url(self.version.as_str());
                            let mut installer = self;
                            installer.download = bytes;
                            installer.go(
                                InstallPhase::FetchingDigest,
                                InstallCommand::FetchDigest { url },
                            )
                        },
                        Err(e) => {
                            let url = self.fallback_url.clone();
                            let mut installer = self;
                            installer.primary_error = e;
                            installer.go(
                                InstallPhase::DownloadingFallback,
                                InstallCommand::Download { url },
                            )
                        },
                    }
                } else if self.phase == InstallPhase::DownloadingFallback {
                    match r {
                        Ok(bytes) => {
                            let url = get_digest_url(self.version.as_str());
                            let mut installer = self;
                            installer.download = bytes;
                            installer.go(
                                InstallPhase::FetchingDigest,
                                InstallCommand::FetchDigest { url },
                            )
                        },
                        Err(e) => {
                            let mut message = concat3(
                                "Failed to download BYOND version ",
                                self.version.as_str(),
                                ": primary error: ",
                            );
                            message.append(self.primary_error.as_str());
                            message.append(", fallback error: ");
                            message.append(e.as_str());
                            self.fail(message)
                        },
                    }
                } else {
                    self.stay()
                }
            },
            InstallInput::Digest(digest) => {
                if self.phase == InstallPhase::FetchingDigest {
                    self.on_digest(digest)
                } else {
                    self.stay()
                }
            },
            InstallInput::Persisted(r) => {
                if self.phase == InstallPhase::Persisting {
                    match r {
                        Ok(()) => self.on_persisted(),
                        Err(e) => {
                            let message = concat2("Failed to save download: ", e.as_str());
                            self.fail(message)
                        },
                    }
                } else {
                    self.stay()
                }
            },
            InstallInput::Extracted(r) => {
                if self.phase == InstallPhase::Extracting {
                    match r {
                        Ok(()) => self.go(InstallPhase::Cleaning, InstallCommand::RemoveDownload),
                        Err((fault, e)) => {
                            let message = fault_message(fault, e.as_str());
                            self.fail(message)
                        },
                    }
                } else {
                    self.stay()
                }
            },
            InstallInput::DownloadRemoved => {
                if self.phase == InstallPhase::Cleaning {
                    self.go(InstallPhase::PostInstall, InstallCommand::PostInstall)
                } else {
                    self.stay()
                }
            },
            InstallInput::PostInstalled => {
                if self.phase == InstallPhase::PostInstall {
                    self.go(InstallPhase::Rechecking, InstallCommand::CheckInstalled)
                } else {
                    self.stay()
                }
            },
        }
    }
}

/// The state of an installation that has not begun.
pub open spec fn fresh_installer(version: Seq<char>) -> InstallerView {
    InstallerView {
        version,
        phase: InstallPhase::Idle,
        primary_error: Seq::<char>::empty(),
        fallback_url: Seq::<char>::empty(),
        download: Seq::<u8>::empty(),
        integrity: Integrity::NotNeeded,
    }
}

/// What the disk says of a version whose executable is there.
pub open spec fn installed_info(version: Seq<char>, executable: Seq<char>) -> VersionInfoView {
    VersionInfoView { version, installed: true, path: Some(executable) }
}

/// Installing a version that is already on disk does nothing but look: the
/// installation asks for one look at the disk and then ends with what the
/// look found. Neither command reaches out to the network.
pub proof fn law_installed_version_is_only_checked(version: Seq<char>, executable: Seq<char>)
    ensures
        ({
            let begun = install_step_spec(fresh_installer(version), InstallInputView::Begin);
            let ended = install_step_spec(
                begun.installer,
                InstallInputView::Checked { executable, exists: true },
            );
            &&& begun.command == InstallCommandView::CheckInstalled
            &&& ended.command == InstallCommandView::Finish(
                Ok((installed_info(version, executable), Integrity::NotNeeded)),
            )
            &&& ended.installer.phase == InstallPhase::Finished
            &&& !uses_network(begun.command)
            &&& !uses_network(ended.command)
        }),
{
}

/// Installing is idempotent. Take any installation that ends well because
/// its second look at the disk finds the executable. Installing the same
/// version again, with the disk as that look found it, fetches nothing and
/// reports the same version, state and path.
pub proof fn law_install_twice(m: InstallerView, executable: Seq<char>)
    requires
        m.phase == InstallPhase::Rechecking,
    ensures
        ({
            let first = install_step_spec(m, InstallInputView::Checked { executable, exists: true });
            let begun = install_step_spec(fresh_installer(m.version), InstallInputView::Begin);
            let second = install_step_spec(
                begun.installer,
                InstallInputView::Checked { executable, exists: true },
            );
            &&& first.command matches InstallCommandView::Finish(Ok((first_info, _)))
            &&& second.command matches InstallCommandView::Finish(Ok((second_info, _)))
            &&& first_info == second_info
            &&& first_info == installed_info(m.version, executable)
            &&& !uses_network(begun.command)
            &&& !uses_network(second.command)
        }),
{
}

/// A digest that the trust service gave is never passed over: whatever else
/// holds, a download that does not have it ends the installation with a
/// failure, and nothing is saved or unpacked.
pub proof fn law_mismatch_is_fatal(m: InstallerView, expected: Seq<char>)
    requires
        m.phase == InstallPhase::FetchingDigest,
        verification(m.download, expected) is Err,
    ensures
        ({
            let step = install_step_spec(m, InstallInputView::Digest(Ok(Some(expected))));
            &&& step.installer.phase == InstallPhase::Finished
            &&& step.command matches InstallCommandView::Finish(Err(_))
        }),
{
}

/// Without a digest the installation goes on, and says so: where the trust
/// service has no digest, or cannot be asked, the download is saved next and
/// is marked as unverified.
pub proof fn law_missing_digest_is_noted(m: InstallerView, digest: Result<Option<Seq<char>>, Seq<char>>)
    requires
        m.phase == InstallPhase::FetchingDigest,
        !(digest matches Ok(Some(_))),
    ensures
        ({
            let step = install_step_spec(m, InstallInputView::Digest(digest));
            &&& step.installer.phase == InstallPhase::Persisting
            &&& step.installer.integrity == Integrity::Unverified
            &&& step.installer.download == m.download
            &&& step.command == InstallCommandView::PersistDownload
        }),
{
}

/// The directory of the launcher below the directory for local data.
pub open spec fn launcher_dir_name() -> Seq<char> {
    "com.cm-ss13.launcher"@
}

/// Where the versions of the runtime are kept, as the components of a path:
/// the directory for local data, the launcher's directory in it, and
/// `byond` in that.
pub open spec fn base_dir_parts(local_data: Seq<char>) -> Seq<Seq<char>> {
    seq![local_data, launcher_dir_name(), "byond"@]
}

/// Where a version of the runtime is kept: its own directory, named by the
/// version, below the base.
pub open spec fn version_dir_parts(local_data: Seq<char>, version: Seq<char>) -> Seq<Seq<char>> {
    base_dir_parts(local_data).push(version)
}

/// Where the executable of a version is: `byond/bin/dreamseeker.exe` below
/// the version's directory.
pub open spec fn dreamseeker_parts(local_data: Seq<char>, version: Seq<char>) -> Seq<Seq<char>> {
    version_dir_parts(local_data, version).push("byond"@).push("bin"@).push("dreamseeker.exe"@)
}

/// The components of the path below which the versions of the runtime are
/// kept, or the failure where the system names no directory for local data.
pub fn get_byond_base_dir(local_data: Option<&str>) -> (r: Result<Vec<String>, String>)
    ensures
        match local_data {
            Some(dir) => r matches Ok(parts) && views(parts@) == base_dir_parts(dir@),
            None => r matches Err(m) && m@ == "Failed to get local data directory"@,
        },
{
    match local_data {
        None => Err("Failed to get local data directory".to_owned()),
        Some(dir) => {
            let a = dir.to_owned();
            let b = "com.cm-ss13.launcher".to_owned();
            let c = "byond".to_owned();
            let parts = vec![a, b, c];
            assert(views(parts@) =~= seq![a@, b@, c@]);
            Ok(parts)
        },
    }
}

/// The components of the path of a version's directory.
pub fn get_byond_version_dir(local_data: Option<&str>, version: &str) -> (r: Result<
    Vec<String>,
    String,
>)
    ensures
        match local_data {
            Some(dir) => r matches Ok(parts) && views(parts@) == version_dir_parts(dir@, version@),
            None => r matches Err(m) && m@ == "Failed to get local data directory"@,
        },
{
    match get_byond_base_dir(local_data) {
        Err(e) => Err(e),
        Ok(parts) => {
            let mut parts = parts;
            let ghost before = views(parts@);
            let v = version.to_owned();
            parts.push(v);
            assert(views(parts@) == before.push(v@));
            Ok(parts)
        },
    }
}

/// The components of the path of a version's executable. There is none on
/// a system that the game client does not run on.
pub fn get_dreamseeker_path(local_data: Option<&str>, version: &str, platform: Platform) -> (r:
    Result<Vec<String>, String>)
    ensures
        if !runs_game(platform) {
            r matches Err(m) && m@ == "BYOND is only supported on Windows and Linux (via Wine)"@
        } else {
            match local_data {
                Some(dir) => r matches Ok(parts) && views(parts@) == dreamseeker_parts(
                    dir@,
                    version@,
                ),
                None => r matches Err(m) && m@ == "Failed to get local data directory"@,
            }
        },
{
    if !(platform == Platform::Windows || platform == Platform::Linux) {
        return Err("BYOND is only supported on Windows and Linux (via Wine)".to_owned());
    }
    match get_byond_version_dir(local_data, version) {
        Err(e) => Err(e),
        Ok(parts) => {
            let mut parts = parts;
            let ghost before = views(parts@);
            let a = "byond".to_owned();
            let b = "bin".to_owned();
            let c = "dreamseeker.exe".to_owned();
            parts.push(a);
            parts.push(b);
            parts.push(c);
            assert(views(parts@) == before.push(a@).push(b@).push(c@));
            Ok(parts)
        },
    }
}

/// The views of a list of reports of the disk.
pub open spec fn info_views(infos: Seq<ByondVersionInfo>) -> Seq<VersionInfoView> {
    infos.map_values(|i: ByondVersionInfo| i@)
}

/// Of the first `n` reports, those of versions that are installed, in order.
pub open spec fn installed_among(infos: Seq<VersionInfoView>, n: int) -> Seq<VersionInfoView>
    decreases n,
{
    if n <= 0 {
        Seq::<VersionInfoView>::empty()
    } else if infos[n - 1].installed {
        installed_among(infos, n - 1).push(infos[n - 1])
    } else {
        installed_among(infos, n - 1)
    }
}

/// Of the versions that have a directory, those that are installed.
pub fn list_installed_byond_versions(candidates: Vec<ByondVersionInfo>) -> (installed: Vec<
    ByondVersionInfo,
>)
    ensures
        info_views(installed@) == installed_among(
            info_views(candidates@),
            candidates.len() as int,
        ),
{
    let ghost all = info_views(candidates@);
    let ghost count = candidates.len() as int;
    let mut rest = candidates;
    let mut kept: Vec<ByondVersionInfo> = Vec::new();
    // reports are taken from the end, so what is kept comes out reversed
    while rest.len() > 0
        invariant
            rest.len() <= count,
            info_views(rest@) == all.take(rest.len() as int),
            all.len() == count,
            installed_among(all, rest.len() as int) + info_views(kept@).reverse()
                == installed_among(all, count),
        decreases rest.len(),
    {
        let ghost before_rest = info_views(rest@);
        let ghost before_kept = info_views(kept@);
        let n = rest.len();
        let info = rest.pop().unwrap();
        proof {
            assert(info_views(rest@) =~= all.take(rest.len() as int));
            assert(info@ == before_rest[n - 1]);
            assert(info@ == all[n - 1]);
        }
        if info.installed {
            kept.push(info);
            proof {
                assert(info_views(kept@) == before_kept.push(info@));
                assert(info_views(kept@).reverse() =~= seq![info@] + before_kept.reverse());
                assert(installed_among(all, n as int) == installed_among(all, n - 1).push(info@));
                assert(installed_among(all, n - 1) + (seq![info@] + before_kept.reverse())
                    =~= installed_among(all, n as int) + before_kept.reverse());
            }
        }
    }
    let mut out: Vec<ByondVersionInfo> = Vec::new();
    let ghost kept_views = info_views(kept@);
    proof {
        assert(installed_among(all, 0) + kept_views.reverse() =~= kept_views.reverse());
        assert(info_views(out@) =~= kept_views.reverse().take(0));
    }
    while kept.len() > 0
        invariant
            kept.len() <= kept_views.len(),
            info_views(kept@) == kept_views.take(kept.len() as int),
            info_views(out@) == kept_views.reverse().take(kept_views.len() - kept.len()),
        decreases kept.len(),
    {
        let ghost before_out = info_views(out@);
        let ghost before_kept = info_views(kept@);
        let n = kept.len();
        let info = kept.pop().unwrap();
        proof {
            assert(info_views(kept@) =~= kept_views.take(kept.len() as int));
            assert(info@ == before_kept[n - 1]);
        }
        out.push(info);
        proof {
            assert(info_views(out@) == before_out.push(info@));
            assert(info_views(out@) =~= kept_views.reverse().take(kept_views.len() - kept.len()));
        }
    }
    proof {
        assert(kept_views.reverse().take(kept_views.len() as int) =~= kept_views.reverse());
    }
    out
}

} // verus!
