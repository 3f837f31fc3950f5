//! Connecting to a game server: the address handed to the game client, the
//! outcome reported to the caller, and the guard that keeps two attempts from
//! running at once.

use vstd::prelude::*;
use crate::presence::{ConnectionParams, ConnectionParamsView};
use crate::runtime::VersionInfoView;
use crate::servers::{
    clone_opt, find_exact_spec, find_server_exact, opt_view, parse_server_url, port_of,
    server_views, Server, ServerView,
};
use crate::settings::AuthMode;
use crate::steam::{steam_outcome_view, SteamAuthResult, SteamAuthView};
use crate::text::{
    concat2, concat3, eq_ignore_ascii_case, join, join_with, same_ignoring_ascii_case, split,
    split_on, str_eq, strip_prefix, views, without_prefix,
};

verus! {

/// Whether a version of the runtime is installed, and where its executable is.
#[derive(Debug)]
pub struct ByondVersionInfo {
    pub version: String,
    pub installed: bool,
    pub path: Option<String>,
}

/// Why credentials could not be had: a code for the caller to branch on, a
/// message for the user, and where to go to link an account, if that helps.
#[derive(Debug, Clone)]
pub struct AuthError {
    pub code: String,
    pub message: String,
    pub linking_url: Option<String>,
}

/// What a connection attempt came to.
#[derive(Debug)]
pub struct ConnectionResult {
    pub success: bool,
    pub message: String,
    pub auth_error: Option<AuthError>,
}

/// The view of an optional string slice.
pub open spec fn opt_str_view(o: Option<&str>) -> Option<Seq<char>> {
    match o {
        Some(s) => Some(s@),
        None => None,
    }
}

/// The query parameters of a connection address, in order: the credential
/// (only where both its tag and its value are given), the port of the
/// launcher's control channel, and that of its websocket.
pub open spec fn query_params(
    access_type: Option<Seq<char>>,
    access_token: Option<Seq<char>>,
    launcher_port: Option<Seq<char>>,
    websocket_port: Option<Seq<char>>,
) -> Seq<Seq<char>> {
    let credential = if access_type is Some && access_token is Some {
        seq![access_type->0 + "="@ + access_token->0]
    } else {
        Seq::<Seq<char>>::empty()
    };
    let launcher = if launcher_port is Some {
        seq!["launcher_port="@ + launcher_port->0]
    } else {
        Seq::<Seq<char>>::empty()
    };
    let websocket = if websocket_port is Some {
        seq!["websocket_port="@ + websocket_port->0]
    } else {
        Seq::<Seq<char>>::empty()
    };
    credential + launcher + websocket
}

/// The address that the game client is started with: `byond://host:port`,
/// followed by `?` and the query parameters joined by `&` where there are any.
pub open spec fn connect_url(
    host: Seq<char>,
    port: Seq<char>,
    access_type: Option<Seq<char>>,
    access_token: Option<Seq<char>>,
    launcher_port: Option<Seq<char>>,
    websocket_port: Option<Seq<char>>,
) -> Seq<char> {
    let base = "byond://"@ + host + ":"@ + port;
    let params = query_params(access_type, access_token, launcher_port, websocket_port);
    if params.len() == 0 {
        base
    } else {
        base + "?"@ + join_with(params, "&"@)
    }
}

/// Builds the address that the game client is started with.
pub fn build_connect_url(
    host: &str,
    port: &str,
    access_type: Option<&str>,
    access_token: Option<&str>,
    launcher_port: Option<&str>,
    websocket_port: Option<&str>,
) -> (url: String)
    ensures
        url@ == connect_url(
            host@,
            port@,
            opt_str_view(access_type),
            opt_str_view(access_token),
            opt_str_view(launcher_port),
            opt_str_view(websocket_port),
        ),
{
    let ghost want = query_params(
        opt_str_view(access_type),
        opt_str_view(access_token),
        opt_str_view(launcher_port),
        opt_str_view(websocket_port),
    );
    let mut params: Vec<String> = Vec::new();
    assert(views(params@) == Seq::<Seq<char>>::empty());
    match (access_type, access_token) {
        (Some(tag), Some(token)) => {
            let ghost before = views(params@);
            let p = concat3(tag, "=", token);
            params.push(p);
            assert(views(params@) == before.push(p@));
        },
        _ => {},
    }
    match launcher_port {
        Some(p) => {
            let ghost before = views(params@);
            let q = concat2("launcher_port=", p);
            params.push(q);
            assert(views(params@) == before.push(q@));
        },
        None => {},
    }
    match websocket_port {
        Some(p) => {
            let ghost before = views(params@);
            let q = concat2("websocket_port=", p);
            params.push(q);
            assert(views(params@) == before.push(q@));
        },
        None => {},
    }
    assert(views(params@) == want);
    let mut url = concat3("byond://", host, ":");
    url.append(port);
    if params.len() > 0 {
        let joined = join(&params, "&");
        url.append("?");
        url.append(joined.as_str());
    }
    url
}

/// All that a connection attempt carries: the runtime version, the relay
/// host and the port to connect to, the credential, the server's name and
/// map, and who asked for the connection.
#[derive(Debug)]
pub struct ConnectRequest {
    pub version: String,
    pub host: String,
    pub port: String,
    pub access_type: Option<String>,
    pub access_token: Option<String>,
    pub server_name: String,
    pub map_name: Option<String>,
    pub source: Option<String>,
}

/// A connection attempt as mathematical values.
pub struct ConnectRequestView {
    pub version: Seq<char>,
    pub host: Seq<char>,
    pub port: Seq<char>,
    pub access_type: Option<Seq<char>>,
    pub access_token: Option<Seq<char>>,
    pub server_name: Seq<char>,
    pub map_name: Option<Seq<char>>,
    pub source: Option<Seq<char>>,
}

impl View for ConnectRequest {
    type V = ConnectRequestView;

    open spec fn view(&self) -> ConnectRequestView {
        ConnectRequestView {
            version: self.version@,
            host: self.host@,
            port: self.port@,
            access_type: opt_view(self.access_type),
            access_token: opt_view(self.access_token),
            server_name: self.server_name@,
            map_name: opt_view(self.map_name),
            source: opt_view(self.source),
        }
    }
}

/// An authentication failure as mathematical values.
pub struct AuthErrorView {
    pub code: Seq<char>,
    pub message: Seq<char>,
    pub linking_url: Option<Seq<char>>,
}

impl View for AuthError {
    type V = AuthErrorView;

    open spec fn view(&self) -> AuthErrorView {
        AuthErrorView {
            code: self.code@,
            message: self.message@,
            linking_url: opt_view(self.linking_url),
        }
    }
}

/// The outcome of a connection attempt as mathematical values.
pub struct ConnectionResultView {
    pub success: bool,
    pub message: Seq<char>,
    pub auth_error: Option<AuthErrorView>,
}

impl View for ConnectionResult {
    type V = ConnectionResultView;

    open spec fn view(&self) -> ConnectionResultView {
        ConnectionResultView {
            success: self.success,
            message: self.message@,
            auth_error: match self.auth_error {
                Some(e) => Some(e@),
                None => None,
            },
        }
    }
}

/// The guard that lets one connection attempt through at a time: a flag that
/// is tested and set in one go, and that only the guard's own operations
/// can touch.
#[derive(Debug)]
pub struct ConnectionGuard {
    held: bool,
}

/// What an attempt is told when another one holds the guard.
pub open spec fn rejection() -> ConnectionResultView {
    ConnectionResultView {
        success: false,
        message: "Connection already in progress"@,
        auth_error: None,
    }
}

/// What the guard does with an attempt that arrives: the guard is held
/// afterwards in either case; the attempt is let through where the guard was
/// free, and is rejected where it was held.
pub open spec fn arrival(held: bool) -> (bool, Option<ConnectionResultView>) {
    if held {
        (true, Some(rejection()))
    } else {
        (true, None)
    }
}

impl ConnectionGuard {
    /// Whether an attempt holds the guard.
    pub closed spec fn holds(&self) -> bool {
        self.held
    }

    /// A guard that is free.
    pub fn new() -> (g: ConnectionGuard)
        ensures
            !g.holds(),
    {
        ConnectionGuard { held: false }
    }

    /// Tells whether an attempt holds the guard.
    pub fn is_held(&self) -> (r: bool)
        ensures
            r == self.holds(),
    {
        self.held
    }

    /// Tests and sets the guard: true where the guard was free and is now
    /// held by the caller, false where it is held by another.
    pub fn try_acquire(&mut self) -> (acquired: bool)
        ensures
            acquired == !old(self).holds(),
            final(self).holds(),
    {
        let was_held = self.held;
        self.held = true;
        !was_held
    }

    /// Frees the guard.
    pub fn release(&mut self)
        ensures
            !final(self).holds(),
    {
        self.held = false;
    }

    /// The entry of a connection attempt: the attempt is rejected at once
    /// where another is in progress, and the guard is left to its holder;
    /// else the guard is taken and the attempt may go on.
    pub fn enter(&mut self) -> (rejected: Option<ConnectionResult>)
        ensures
            final(self).holds() == arrival(old(self).holds()).0,
            match rejected {
                Some(r) => arrival(old(self).holds()).1 == Some(r@),
                None => arrival(old(self).holds()).1 is None,
            },
    {
        if self.try_acquire() {
            None
        } else {
            Some(
                ConnectionResult {
                    success: false,
                    message: "Connection already in progress".to_owned(),
                    auth_error: None,
                },
            )
        }
    }

    /// The exit of the attempt that holds the guard: the guard is freed,
    /// however the attempt went, and the outcome is handed on as it is.
    pub fn leave(&mut self, outcome: Result<ConnectionResult, String>) -> (r: Result<
        ConnectionResult,
        String,
    >)
        ensures
            !final(self).holds(),
            r == outcome,
    {
        self.release();
        outcome
    }
}

/// The guard lets exactly one of two attempts through. Of two attempts that
/// arrive at a free guard, the first is let through and the second is
/// rejected with the message that a connection is in progress; the rejected
/// attempt leaves the guard held; and once the first attempt has left, the
/// guard is free and lets the next attempt through.
pub proof fn law_guard_lets_one_through()
    ensures
        ({
            let first = arrival(false);
            let second = arrival(first.0);
            &&& first.1 is None
            &&& second.1 == Some(rejection())
            &&& !rejection().success
            &&& second.0
            &&& arrival(false).1 is None
        }),
{
}

/// What must be looked at to obtain a credential.
#[derive(Debug, Clone, Copy, PartialEq, Eq, Structural)]
pub enum EvidenceKind {
    /// The cached first-party tokens.
    Tokens,
    /// The answer of the Steam identity provider.
    Steam,
    /// Whether the game's pager is running.
    Pager,
}

/// What was found when looking.
#[derive(Debug)]
pub enum AuthEvidence {
    /// The cached access token, or why the store could not be read, and
    /// whether the token has expired.
    Tokens { tokens: Result<Option<String>, String>, expired: bool },
    /// The answer of Steam, or its failure; nothing where Steam is not there.
    Steam(Option<Result<SteamAuthResult, String>>),
    /// This build has no support for Steam.
    SteamNotCompiled,
    /// Whether the game's pager is running.
    Pager { running: bool },
}

/// What the way to authenticate asks to be looked at.
pub fn evidence_needed(mode: AuthMode) -> (kind: EvidenceKind)
    ensures
        kind == match mode {
            AuthMode::CmSs13 => EvidenceKind::Tokens,
            AuthMode::Steam => EvidenceKind::Steam,
            AuthMode::Byond => EvidenceKind::Pager,
        },
{
    match mode {
        AuthMode::CmSs13 => EvidenceKind::Tokens,
        AuthMode::Steam => EvidenceKind::Steam,
        AuthMode::Byond => EvidenceKind::Pager,
    }
}

/// An authentication failure without an address to go to.
pub open spec fn plain_failure(code: Seq<char>, message: Seq<char>) -> AuthErrorView {
    AuthErrorView { code, message, linking_url: None }
}

/// The failure for settings that could not be loaded.
pub open spec fn settings_failure_spec(cause: Seq<char>) -> AuthErrorView {
    plain_failure("settings_error"@, cause)
}

/// What evidence as mathematical values.
pub enum AuthEvidenceView {
    Tokens { tokens: Result<Option<Seq<char>>, Seq<char>>, expired: bool },
    Steam(Option<Result<SteamAuthView, Seq<char>>>),
    SteamNotCompiled,
    Pager { running: bool },
}

impl View for AuthEvidence {
    type V = AuthEvidenceView;

    open spec fn view(&self) -> AuthEvidenceView {
        match self {
            AuthEvidence::Tokens { tokens, expired } => AuthEvidenceView::Tokens {
                tokens: match tokens {
                    Ok(t) => Ok(opt_view(*t)),
                    Err(e) => Err(e@),
                },
                expired: *expired,
            },
            AuthEvidence::Steam(outcome) => AuthEvidenceView::Steam(
                steam_outcome_view(*outcome),
            ),
            AuthEvidence::SteamNotCompiled => AuthEvidenceView::SteamNotCompiled,
            AuthEvidence::Pager { running } => AuthEvidenceView::Pager { running: *running },
        }
    }
}

/// The credential that the evidence gives, or the failure, with its code.
///
/// Tokens: the token where there is one that has not expired; `token_error`
/// where the store could not be read; `auth_required` otherwise. Steam: the
/// token on success; `steam_unavailable` where Steam is not there or not
/// supported; `steam_error` for the provider's own failure;
/// `steam_linking_required`, with the address, where linking is asked;
/// `steam_auth_failed` otherwise. Pager: no token where it runs;
/// `byond_pager_not_running` where it does not.
pub open spec fn credential_for(evidence: AuthEvidenceView) -> Result<
    (Option<Seq<char>>, Option<Seq<char>>),
    AuthErrorView,
> {
    match evidence {
        AuthEvidenceView::Tokens { tokens, expired } => match tokens {
            Err(e) => Err(plain_failure("token_error"@, e)),
            Ok(Some(token)) => if !expired {
                Ok((Some("cm_ss13"@), Some(token)))
            } else {
                Err(plain_failure("auth_required"@, "Please log in to CM-SS13"@))
            },
            Ok(None) => Err(plain_failure("auth_required"@, "Please log in to CM-SS13"@)),
        },
        AuthEvidenceView::Steam(outcome) => match outcome {
            None => Err(plain_failure("steam_unavailable"@, "Steam is not available"@)),
            Some(Err(e)) => Err(plain_failure("steam_error"@, e)),
            Some(Ok(r)) => if r.success {
                Ok((Some("steam"@), r.access_token))
            } else if r.requires_linking {
                Err(
                    AuthErrorView {
                        code: "steam_linking_required"@,
                        message: "Steam account linking required"@,
                        linking_url: r.linking_url,
                    },
                )
            } else {
                Err(
                    plain_failure(
                        "steam_auth_failed"@,
                        match r.error {
                            Some(e) => e,
                            None => "Steam authentication failed"@,
                        },
                    ),
                )
            },
        },
        AuthEvidenceView::SteamNotCompiled => Err(
            plain_failure("steam_unavailable"@, "Steam support not compiled"@),
        ),
        AuthEvidenceView::Pager { running } => if running {
            Ok((Some("byond"@), None))
        } else {
            Err(
                plain_failure(
                    "byond_pager_not_running"@,
                    "BYOND pager is not running. Please open BYOND and log in before connecting."@,
                ),
            )
        },
    }
}

/// The view of a credential, or of the failure in its place.
pub open spec fn auth_view(r: Result<(Option<String>, Option<String>), AuthError>) -> Result<
    (Option<Seq<char>>, Option<Seq<char>>),
    AuthErrorView,
> {
    match r {
        Ok((tag, value)) => Ok((opt_view(tag), opt_view(value))),
        Err(e) => Err(e@),
    }
}

fn failure(code: &str, message: String) -> (e: AuthError)
    ensures
        e@ == plain_failure(code@, message@),
{
    AuthError { code: code.to_owned(), message, linking_url: None }
}

/// The failure for settings that could not be loaded.
pub fn settings_failure(cause: String) -> (e: AuthError)
    ensures
        e@ == settings_failure_spec(cause@),
{
    failure("settings_error", cause)
}

/// Resolves the credential for a connection from what was found when
/// looking, or says with a code why there is none.
pub fn get_auth_for_connection(evidence: AuthEvidence) -> (r: Result<
    (Option<String>, Option<String>),
    AuthError,
>)
    ensures
        auth_view(r) == credential_for(evidence@),
{
    match evidence {
        AuthEvidence::Tokens { tokens, expired } => match tokens {
            Err(e) => Err(failure("token_error", e)),
            Ok(Some(token)) => {
                if !expired {
                    Ok((Some("cm_ss13".to_owned()), Some(token)))
                } else {
                    Err(failure("auth_required", "Please log in to CM-SS13".to_owned()))
                }
            },
            Ok(None) => Err(failure("auth_required", "Please log in to CM-SS13".to_owned())),
        },
        AuthEvidence::Steam(outcome) => match outcome {
            None => Err(failure("steam_unavailable", "Steam is not available".to_owned())),
            Some(Err(e)) => Err(failure("steam_error", e)),
            Some(Ok(result)) => {
                if result.success {
                    Ok((Some("steam".to_owned()), result.access_token))
                } else if result.requires_linking {
                    Err(
                        AuthError {
                            code: "steam_linking_required".to_owned(),
                            message: "Steam account linking required".to_owned(),
                            linking_url: result.linking_url,
                        },
                    )
                } else {
                    let message = match result.error {
                        Some(e) => e,
                        None => "Steam authentication failed".to_owned(),
                    };
                    Err(failure("steam_auth_failed", message))
                }
            },
        },
        AuthEvidence::SteamNotCompiled => Err(
            failure("steam_unavailable", "Steam support not compiled".to_owned()),
        ),
        AuthEvidence::Pager { running } => {
            if running {
                Ok((Some("byond".to_owned()), None))
            } else {
                Err(
                    failure(
                        "byond_pager_not_running",
                        "BYOND pager is not running. Please open BYOND and log in before connecting.".to_owned(),
                    ),
                )
            }
        },
    }
}

/// The outcome of a connection attempt that could not authenticate: no
/// success, the failure's message, and the failure itself.
pub fn auth_failure_result(error: AuthError) -> (r: ConnectionResult)
    ensures
        !r@.success,
        r@.message == error@.message,
        r@.auth_error == Some(error@),
{
    ConnectionResult { success: false, message: error.message.clone(), auth_error: Some(error) }
}

/// Whether a process name is that of the game's pager, whatever the case of
/// its letters.
pub fn is_pager_process(name: &str) -> (r: bool)
    ensures
        r == same_ignoring_ascii_case(name@, "byond.exe"@),
{
    eq_ignore_ascii_case(name, "byond.exe")
}

/// Whether the game's pager counts as running: only on Windows, and there
/// where it is among the running processes.
pub open spec fn pager_running(platform: Platform, process_names: Seq<Seq<char>>) -> bool {
    platform == Platform::Windows && exists|i: int|
        0 <= i < process_names.len() && same_ignoring_ascii_case(
            #[trigger] process_names[i],
            "byond.exe"@,
        )
}

/// Tells whether the game's pager counts as running, from the names of the
/// running processes.
pub fn check_byond_pager_running(platform: Platform, process_names: &Vec<String>) -> (r: bool)
    ensures
        r == pager_running(platform, views(process_names@)),
{
    if platform != Platform::Windows {
        return false;
    }
    let mut i: usize = 0;
    while i < process_names.len()
        invariant
            i <= process_names.len(),
            platform == Platform::Windows,
            forall|j: int|
                0 <= j < i ==> !same_ignoring_ascii_case(
                    #[trigger] views(process_names@)[j],
                    "byond.exe"@,
                ),
        decreases process_names.len() - i,
    {
        if is_pager_process(process_names[i].as_str()) {
            assert(views(process_names@)[i as int] == process_names@[i as int]@);
            return true;
        }
        i += 1;
    }
    false
}

/// What a connection to a named server goes to: the runtime version that
/// the server recommends, its port, the host of the selected relay, and the
/// map it runs, if known.
#[derive(Debug)]
pub struct ConnectTarget {
    pub version: String,
    pub port: String,
    pub host: String,
    pub map_name: Option<String>,
}

/// A target as mathematical values.
pub struct ConnectTargetView {
    pub version: Seq<char>,
    pub port: Seq<char>,
    pub host: Seq<char>,
    pub map_name: Option<Seq<char>>,
}

impl View for ConnectTarget {
    type V = ConnectTargetView;

    open spec fn view(&self) -> ConnectTargetView {
        ConnectTargetView {
            version: self.version@,
            port: self.port@,
            host: self.host@,
            map_name: opt_view(self.map_name),
        }
    }
}

/// Where a connection to the server with the given name goes, or why it
/// cannot be made. The directory must be there and hold a server of exactly
/// that name, which must recommend a runtime version and have a port in its
/// address; the relay state must be there and a relay be selected. The first
/// of these that fails, in this order, gives the message.
pub open spec fn target_for(
    servers: Option<Seq<ServerView>>,
    server_name: Seq<char>,
    relay_host: Option<Option<Seq<char>>>,
) -> Result<ConnectTargetView, Seq<char>> {
    match servers {
        None => Err("Server state not available"@),
        Some(list) => match find_exact_spec(list, server_name) {
            None => Err("Server '"@ + server_name + "' not found"@),
            Some(i) => match list[i].recommended_byond_version {
                None => Err("Server has no recommended BYOND version"@),
                Some(version) => match port_of(list[i].url) {
                    None => Err("Invalid server URL format"@),
                    Some(port) => match relay_host {
                        None => Err("Relay state not available"@),
                        Some(None) => Err("No relay selected"@),
                        Some(Some(host)) => Ok(
                            ConnectTargetView {
                                version,
                                port,
                                host,
                                map_name: match list[i].data {
                                    Some(d) => Some(d.map_name),
                                    None => None,
                                },
                            },
                        ),
                    },
                },
            },
        },
    }
}

/// The view of a target, or of the message in its place.
pub open spec fn target_view(r: Result<ConnectTarget, String>) -> Result<
    ConnectTargetView,
    Seq<char>,
> {
    match r {
        Ok(t) => Ok(t@),
        Err(e) => Err(e@),
    }
}

/// Resolves where a connection to a named server goes. `servers` is the
/// directory, if its state is there; `relay_host` is the host of the
/// selected relay, if one is selected, where the relay state is there.
pub fn resolve_target(
    servers: Option<&Vec<Server>>,
    server_name: &str,
    relay_host: Option<Option<String>>,
) -> (r: Result<ConnectTarget, String>)
    ensures
        target_view(r) == target_for(
            match servers {
                Some(l) => Some(server_views(l@)),
                None => None,
            },
            server_name@,
            match relay_host {
                Some(h) => Some(opt_view(h)),
                None => None,
            },
        ),
{
    let list = match servers {
        None => {
            return Err("Server state not available".to_owned());
        },
        Some(list) => list,
    };
    let i = match find_server_exact(list, server_name) {
        None => {
            return Err(concat3("Server '", server_name, "' not found"));
        },
        Some(i) => i,
    };
    let server = &list[i];
    assert(server@ == server_views(list@)[i as int]);
    let version = match clone_opt(&server.recommended_byond_version) {
        None => {
            return Err("Server has no recommended BYOND version".to_owned());
        },
        Some(version) => version,
    };
    let port = match parse_server_url(server.url.as_str()) {
        None => {
            return Err("Invalid server URL format".to_owned());
        },
        Some(port) => port,
    };
    let host = match relay_host {
        None => {
            return Err("Relay state not available".to_owned());
        },
        Some(None) => {
            return Err("No relay selected".to_owned());
        },
        Some(Some(host)) => host,
    };
    let map_name = match &server.data {
        Some(d) => Some(d.map_name.clone()),
        None => None,
    };
    Ok(ConnectTarget { version, port, host, map_name })
}

/// Puts a connection attempt together from its target, the credential, the
/// server's name and who asked.
pub fn make_request(
    target: ConnectTarget,
    credential: (Option<String>, Option<String>),
    server_name: String,
    source: Option<String>,
) -> (r: ConnectRequest)
    ensures
        r@ == (ConnectRequestView {
            version: target@.version,
            host: target@.host,
            port: target@.port,
            access_type: opt_view(credential.0),
            access_token: opt_view(credential.1),
            server_name: server_name@,
            map_name: target@.map_name,
            source: opt_view(source),
        }),
{
    ConnectRequest {
        version: target.version,
        host: target.host,
        port: target.port,
        access_type: credential.0,
        access_token: credential.1,
        server_name,
        map_name: target.map_name,
        source,
    }
}

/// The host, the port and the display name that a literal address stands
/// for, in a build that allows connecting to one. The address is taken
/// without a leading scheme and must then be `host:port`; the display name
/// quotes it.
pub open spec fn literal_target(url: Seq<char>, dev_mode: bool) -> Result<
    (Seq<char>, Seq<char>, Seq<char>),
    Seq<char>,
> {
    if !dev_mode {
        Err("Dev mode is not enabled"@)
    } else {
        let bare = match strip_prefix(url, "byond://"@) {
            Some(rest) => rest,
            None => url,
        };
        let parts = split_on(bare, ':');
        if parts.len() != 2 {
            Err("Invalid URL format. Expected 'host:port'"@)
        } else {
            Ok((parts[0], parts[1], "Dev Server ("@ + bare + ")"@))
        }
    }
}

/// Reads a literal address such as `byond://localhost:1400` for a
/// connection that goes by no directory entry.
pub fn parse_connect_url(url: &str, dev_mode: bool) -> (r: Result<(String, String, String), String>)
    ensures
        match r {
            Ok((host, port, name)) => literal_target(url@, dev_mode) == Ok::<
                (Seq<char>, Seq<char>, Seq<char>),
                Seq<char>,
            >((host@, port@, name@)),
            Err(e) => literal_target(url@, dev_mode) == Err::<
                (Seq<char>, Seq<char>, Seq<char>),
                Seq<char>,
            >(e@),
        },
{
    if !dev_mode {
        return Err("Dev mode is not enabled".to_owned());
    }
    let bare = match without_prefix(url, "byond://") {
        Some(rest) => rest,
        None => url.to_owned(),
    };
    let parts = split(bare.as_str(), ':');
    if parts.len() != 2 {
        return Err("Invalid URL format. Expected 'host:port'".to_owned());
    }
    let name = concat3("Dev Server (", bare.as_str(), ")");
    Ok((parts[0].clone(), parts[1].clone(), name))
}

/// The kind of system that the launcher runs on.
#[derive(Debug, Clone, Copy, PartialEq, Eq, Structural)]
pub enum Platform {
    Windows,
    Linux,
    MacOs,
    Other,
}

/// Whether the game client runs on a system, natively or through the
/// compatibility layer.
pub open spec fn runs_game(platform: Platform) -> bool {
    platform == Platform::Windows || platform == Platform::Linux
}

/// How the game client is to be started for a connection attempt.
#[derive(Debug)]
pub struct LaunchPlan {
    /// The executable of the game client.
    pub executable: String,
    /// The address it is started with.
    pub connect_url: String,
    /// Whether the executable is run through the compatibility layer.
    pub via_wine: bool,
    /// Whether the front end is told beforehand that a game is connecting.
    pub announce: bool,
    /// What to remember so that the connection can be started once more.
    pub params: ConnectionParams,
}

/// A launch plan as mathematical values.
pub struct LaunchPlanView {
    pub executable: Seq<char>,
    pub connect_url: Seq<char>,
    pub via_wine: bool,
    pub announce: bool,
    pub params: ConnectionParamsView,
}

impl View for LaunchPlan {
    type V = LaunchPlanView;

    open spec fn view(&self) -> LaunchPlanView {
        LaunchPlanView {
            executable: self.executable@,
            connect_url: self.connect_url@,
            via_wine: self.via_wine,
            announce: self.announce,
            params: self.params@,
        }
    }
}

/// The tag of a connection that restarts one that was under way.
pub open spec fn restart_tag() -> Seq<char> {
    "control_server_restart"@
}

/// What a connection attempt remembers of itself.
pub open spec fn params_of(request: ConnectRequestView) -> ConnectionParamsView {
    ConnectionParamsView {
        version: request.version,
        host: request.host,
        port: request.port,
        access_type: request.access_type,
        access_token: request.access_token,
        server_name: request.server_name,
        map_name: request.map_name,
    }
}

/// How the game client is started for an attempt, or why it is not. The
/// installation must have ended well, with the version on disk and the path
/// of its executable known; the system must be one that the game client
/// runs on; and on Linux the compatibility layer must be set up. The front
/// end is told beforehand unless the attempt restarts a connection.
pub open spec fn launch_plan(
    request: ConnectRequestView,
    installed: Result<VersionInfoView, Seq<char>>,
    platform: Platform,
    wine_ready: bool,
    control_port: Option<Seq<char>>,
    websocket_port: Option<Seq<char>>,
) -> Result<LaunchPlanView, Seq<char>> {
    match installed {
        Err(e) => Err(e),
        Ok(info) => if !info.installed {
            Err("Failed to install BYOND version "@ + request.version)
        } else {
            match info.path {
                None => Err("DreamSeeker path not found"@),
                Some(path) => if !runs_game(platform) {
                    Err("BYOND is only supported on Windows and Linux (via Wine)"@)
                } else if platform == Platform::Linux && !wine_ready {
                    Err("Wine environment not fully configured. Please complete setup first."@)
                } else {
                    Ok(
                        LaunchPlanView {
                            executable: path,
                            connect_url: connect_url(
                                request.host,
                                request.port,
                                request.access_type,
                                request.access_token,
                                control_port,
                                websocket_port,
                            ),
                            via_wine: platform == Platform::Linux,
                            announce: request.source != Some(restart_tag()),
                            params: params_of(request),
                        },
                    )
                },
            }
        },
    }
}

/// The view of a launch plan, or of the message in its place.
pub open spec fn plan_view(r: Result<LaunchPlan, String>) -> Result<LaunchPlanView, Seq<char>> {
    match r {
        Ok(p) => Ok(p@),
        Err(e) => Err(e@),
    }
}

fn as_str_opt(o: &Option<String>) -> (r: Option<&str>)
    ensures
        opt_str_view(r) == opt_view(*o),
{
    match o {
        Some(s) => Some(s.as_str()),
        None => None,
    }
}

/// Plans the start of the game client for a connection attempt, once the
/// installation of the runtime has ended.
pub fn plan_launch(
    request: &ConnectRequest,
    installed: Result<ByondVersionInfo, String>,
    platform: Platform,
    wine_ready: bool,
    control_port: Option<&str>,
    websocket_port: Option<&str>,
) -> (r: Result<LaunchPlan, String>)
    ensures
        plan_view(r) == launch_plan(
            request@,
            match installed {
                Ok(info) => Ok(info@),
                Err(e) => Err(e@),
            },
            platform,
            wine_ready,
            opt_str_view(control_port),
            opt_str_view(websocket_port),
        ),
{
    let info = match installed {
        Err(e) => {
            return Err(e);
        },
        Ok(info) => info,
    };
    if !info.installed {
        return Err(concat2("Failed to install BYOND version ", request.version.as_str()));
    }
    let path = match info.path {
        None => {
            return Err("DreamSeeker path not found".to_owned());
        },
        Some(path) => path,
    };
    if !(platform == Platform::Windows || platform == Platform::Linux) {
        return Err("BYOND is only supported on Windows and Linux (via Wine)".to_owned());
    }
    if platform == Platform::Linux && !wine_ready {
        return Err(
            "Wine environment not fully configured. Please complete setup first.".to_owned(),
        );
    }
    let connect_url = build_connect_url(
        request.host.as_str(),
        request.port.as_str(),
        as_str_opt(&request.access_type),
        as_str_opt(&request.access_token),
        control_port,
        websocket_port,
    );
    let announce = match &request.source {
        Some(tag) => !str_eq(tag.as_str(), "control_server_restart"),
        None => true,
    };
    Ok(
        LaunchPlan {
            executable: path,
            connect_url,
            via_wine: platform == Platform::Linux,
            announce,
            params: ConnectionParams {
                version: request.version.clone(),
                host: request.host.clone(),
                port: request.port.clone(),
                access_type: clone_opt(&request.access_type),
                access_token: clone_opt(&request.access_token),
                server_name: request.server_name.clone(),
                map_name: clone_opt(&request.map_name),
            },
        },
    )
}

/// What an attempt comes to once the start of the game client has been
/// tried: success with a message that names the relay host and the runtime
/// version, or the failure with its cause.
pub open spec fn launch_outcome(plan: LaunchPlanView, launched: Result<(), Seq<char>>) -> Result<
    ConnectionResultView,
    Seq<char>,
> {
    match launched {
        Err(e) => Err(
            (if plan.via_wine {
                "Failed to launch DreamSeeker via Wine: "@
            } else {
                "Failed to launch DreamSeeker: "@
            }) + e,
        ),
        Ok(()) => Ok(
            ConnectionResultView {
                success: true,
                message: "Connecting to "@ + plan.params.host + " with BYOND "@
                    + plan.params.version + (if plan.via_wine {
                    " (via Wine)"@
                } else {
                    Seq::<char>::empty()
                }),
                auth_error: None,
            },
        ),
    }
}

/// Reports what a connection attempt came to, given how the start of the
/// game client went.
pub fn launch_result(plan: &LaunchPlan, launched: Result<(), String>) -> (r: Result<
    ConnectionResult,
    String,
>)
    ensures
        match r {
            Ok(result) => launch_outcome(
                plan@,
                match launched {
                    Ok(()) => Ok(()),
                    Err(e) => Err(e@),
                },
            ) == Ok::<ConnectionResultView, Seq<char>>(result@),
            Err(e) => launch_outcome(
                plan@,
                match launched {
                    Ok(()) => Ok(()),
                    Err(e) => Err(e@),
                },
            ) == Err::<ConnectionResultView, Seq<char>>(e@),
        },
{
    match launched {
        Err(e) => {
            if plan.via_wine {
                Err(concat2("Failed to launch DreamSeeker via Wine: ", e.as_str()))
            } else {
                Err(concat2("Failed to launch DreamSeeker: ", e.as_str()))
            }
        },
        Ok(()) => {
            let mut message = concat3("Connecting to ", plan.params.host.as_str(), " with BYOND ");
            message.append(plan.params.version.as_str());
            if plan.via_wine {
                message.append(" (via Wine)");
            }
            assert(message@ =~= "Connecting to "@ + plan@.params.host + " with BYOND "@
                + plan@.params.version + (if plan.via_wine {
                " (via Wine)"@
            } else {
                Seq::<char>::empty()
            }));
            Ok(ConnectionResult { success: true, message, auth_error: None })
        },
    }
}

} // verus!
