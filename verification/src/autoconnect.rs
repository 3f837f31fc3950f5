//! The auto-connect workflow as a state machine. The machine makes every
//! decision; its driver performs the command it is handed (read the server
//! directory, obtain credentials, wait for the relays, launch) and feeds the
//! outcome back in. Each step says which status events to broadcast, in order.

use vstd::prelude::*;
use crate::byond::{
    ConnectRequest, ConnectRequestView, ConnectionResult, ConnectionResultView,
};
use crate::servers::{
    available_status, clone_opt, find_server, find_server_spec, is_available, opt_view,
    parse_server_url, port_of, server_views, Server, ServerView,
};
use crate::settings::AuthMode;
use crate::steam::{steam_outcome_view, SteamAuthResult, SteamAuthView};
use crate::text::{concat3, contains_seq, occurs_at, trim, trimmed};

verus! {

/// How many times the relays are asked whether all probes are done before
/// the wait is given up.
pub const RELAY_POLL_LIMIT: u32 = 60;

/// Milliseconds between two such questions.
pub const RELAY_POLL_INTERVAL_MS: u64 = 500;

/// The stages of an auto-connect run that are reported.
#[derive(Debug, Clone, Copy, PartialEq, Eq, Structural)]
pub enum AutoConnectStatus {
    Starting,
    WaitingForServers,
    WaitingForRelays,
    ServerNotFound,
    ServerUnavailable,
    AuthRequired,
    SteamLinkingRequired,
    Connecting,
    Connected,
    Error,
}

/// One reported status: the stage, the server asked for, a message for the
/// user where there is one, and where to link an account where that is asked.
#[derive(Debug, Clone)]
pub struct AutoConnectEvent {
    pub status: AutoConnectStatus,
    pub server_name: String,
    pub message: Option<String>,
    pub linking_url: Option<String>,
}

/// A reported status as mathematical values.
pub struct AutoConnectEventView {
    pub status: AutoConnectStatus,
    pub server_name: Seq<char>,
    pub message: Option<Seq<char>>,
    pub linking_url: Option<Seq<char>>,
}

impl View for AutoConnectEvent {
    type V = AutoConnectEventView;

    open spec fn view(&self) -> AutoConnectEventView {
        AutoConnectEventView {
            status: self.status,
            server_name: self.server_name@,
            message: opt_view(self.message),
            linking_url: opt_view(self.linking_url),
        }
    }
}

/// The views of a list of reported statuses.
pub open spec fn event_views(events: Seq<AutoConnectEvent>) -> Seq<AutoConnectEventView> {
    events.map_values(|e: AutoConnectEvent| e@)
}

/// Whether a status ends a run.
pub open spec fn is_terminal(status: AutoConnectStatus) -> bool {
    match status {
        AutoConnectStatus::ServerNotFound
        | AutoConnectStatus::ServerUnavailable
        | AutoConnectStatus::AuthRequired
        | AutoConnectStatus::SteamLinkingRequired
        | AutoConnectStatus::Connected
        | AutoConnectStatus::Error => true,
        _ => false,
    }
}

/// The credential tag of the first-party token.
pub open spec fn tag_first_party() -> Seq<char> {
    "cm_ss13"@
}

/// The credential tag of a Steam ticket.
pub open spec fn tag_steam() -> Seq<char> {
    "steam"@
}

/// The credential tag of the mode that needs no token.
pub open spec fn tag_none() -> Seq<char> {
    "byond"@
}

/// A credential: its tag and, where the mode has one, the bearer value.
pub type Credential = (Option<String>, Option<String>);

/// The view of a credential, or of the message that says why there is none.
pub open spec fn credential_view(c: Result<Credential, String>) -> Result<
    (Option<Seq<char>>, Option<Seq<char>>),
    Seq<char>,
> {
    match c {
        Ok((tag, value)) => Ok((opt_view(tag), opt_view(value))),
        Err(e) => Err(e@),
    }
}

/// Whether cached first-party tokens call for a login: the store could be
/// read, and there is no token or the token has expired.
pub open spec fn login_needed(tokens: Result<Option<Seq<char>>, Seq<char>>, expired: bool) -> bool {
    tokens matches Ok(token) && (token is None || expired)
}

/// What cached first-party tokens give: the token where there is one that
/// has not expired; the request to log in where there is none or it has
/// expired; and the store's own failure where it could not be read.
pub open spec fn tokens_credential(
    tokens: Result<Option<Seq<char>>, Seq<char>>,
    expired: bool,
) -> Result<(Option<Seq<char>>, Option<Seq<char>>), Seq<char>> {
    match tokens {
        Err(e) => Err(e),
        Ok(Some(token)) => if !expired {
            Ok((Some(tag_first_party()), Some(token)))
        } else {
            Err("Please log in to continue"@)
        },
        Ok(None) => Err("Please log in to continue"@),
    }
}

/// Whether an answer of Steam asks for the account to be linked: the
/// provider answered, without success, and set the flag that says so.
pub open spec fn linking_asked(outcome: Option<Result<SteamAuthView, Seq<char>>>) -> bool {
    outcome matches Some(Ok(r)) && !r.success && r.requires_linking
}

/// The token that an answer of Steam gives, or the message that says why it
/// gives none: the token on success; a fixed message where linking is
/// asked; else the provider's message, or a fixed one where it gave none.
pub open spec fn steam_token(outcome: Option<Result<SteamAuthView, Seq<char>>>) -> Result<
    Option<Seq<char>>,
    Seq<char>,
> {
    match outcome {
        None => Err("Steam not available"@),
        Some(Err(e)) => Err(e),
        Some(Ok(r)) => if r.success {
            Ok(r.access_token)
        } else if r.requires_linking {
            Err("Steam account linking required"@)
        } else {
            Err(
                match r.error {
                    Some(e) => e,
                    None => "Steam authentication failed"@,
                },
            )
        },
    }
}

/// The credential that an answer of Steam gives, or the message that says
/// why it gives none.
pub open spec fn steam_credential(outcome: Option<Result<SteamAuthView, Seq<char>>>) -> Result<
    (Option<Seq<char>>, Option<Seq<char>>),
    Seq<char>,
> {
    match steam_token(outcome) {
        Ok(token) => Ok((Some(tag_steam()), token)),
        Err(e) => Err(e),
    }
}

/// Turns what asking Steam came to into a token, or the message that says
/// why there is none.
pub fn get_steam_access_token(outcome: Option<Result<SteamAuthResult, String>>) -> (r: Result<
    Option<String>,
    String,
>)
    ensures
        match r {
            Ok(token) => steam_token(steam_outcome_view(outcome)) == Ok::<
                Option<Seq<char>>,
                Seq<char>,
            >(opt_view(token)),
            Err(e) => steam_token(steam_outcome_view(outcome)) == Err::<
                Option<Seq<char>>,
                Seq<char>,
            >(e@),
        },
{
    match outcome {
        None => Err("Steam not available".to_owned()),
        Some(Err(e)) => Err(e),
        Some(Ok(result)) => {
            if result.success {
                Ok(result.access_token)
            } else if result.requires_linking {
                Err("Steam account linking required".to_owned())
            } else {
                match result.error {
                    Some(e) => Err(e),
                    None => Err("Steam authentication failed".to_owned()),
                }
            }
        },
    }
}

/// Turns cached first-party tokens into a credential, or the message that
/// says why there is none.
pub fn tokens_to_credential(tokens: Result<Option<String>, String>, expired: bool) -> (r: Result<
    Credential,
    String,
>)
    ensures
        credential_view(r) == tokens_credential(
            match tokens {
                Ok(t) => Ok(opt_view(t)),
                Err(e) => Err(e@),
            },
            expired,
        ),
{
    match tokens {
        Err(e) => Err(e),
        Ok(Some(token)) => {
            if !expired {
                Ok((Some("cm_ss13".to_owned()), Some(token)))
            } else {
                Err("Please log in to continue".to_owned())
            }
        },
        Ok(None) => Err("Please log in to continue".to_owned()),
    }
}

/// Turns what asking Steam came to into a credential, or the message that
/// says why there is none.
pub fn steam_to_credential(outcome: Option<Result<SteamAuthResult, String>>) -> (r: Result<
    Credential,
    String,
>)
    ensures
        credential_view(r) == steam_credential(steam_outcome_view(outcome)),
{
    match get_steam_access_token(outcome) {
        Ok(token) => Ok((Some("steam".to_owned()), token)),
        Err(e) => Err(e),
    }
}

/// What the machine is waiting for.
#[derive(Debug, Clone, Copy, PartialEq, Eq, Structural)]
pub enum Phase {
    /// Nothing yet: the run has not begun.
    Idle,
    /// The server directory.
    Servers,
    /// The settings.
    Settings,
    /// The cached first-party tokens.
    Tokens,
    /// The answer of the Steam identity provider.
    Steam,
    /// Whether the relay state is there at all.
    LocateRelays,
    /// Whether every relay has been probed.
    Relays,
    /// The host of the selected relay.
    RelayHost,
    /// The outcome of the launch.
    Connecting,
    /// Nothing more: the run has ended.
    Finished,
}

/// What the driver is to do next.
#[derive(Debug)]
pub enum Command {
    /// Read the current snapshot of the server directory.
    FetchServers,
    /// Load the settings.
    LoadSettings,
    /// Read the cached first-party tokens, and whether they have expired.
    ReadTokens,
    /// Ask the Steam identity provider for a ticket, without user interaction.
    AuthenticateSteam,
    /// Find out whether the relay state is there.
    LocateRelays,
    /// Wait for so many milliseconds, then ask whether every relay has been
    /// probed.
    PollRelays { delay_ms: u64 },
    /// Resolve the selected relay to its host.
    ResolveRelayHost,
    /// Install the runtime and launch the game client.
    Connect(ConnectRequest),
    /// Nothing: the run has ended, or has not begun.
    Stop,
}

/// A command as mathematical values.
pub enum CommandView {
    FetchServers,
    LoadSettings,
    ReadTokens,
    AuthenticateSteam,
    LocateRelays,
    PollRelays { delay_ms: nat },
    ResolveRelayHost,
    Connect(ConnectRequestView),
    Stop,
}

impl View for Command {
    type V = CommandView;

    open spec fn view(&self) -> CommandView {
        match self {
            Command::FetchServers => CommandView::FetchServers,
            Command::LoadSettings => CommandView::LoadSettings,
            Command::ReadTokens => CommandView::ReadTokens,
            Command::AuthenticateSteam => CommandView::AuthenticateSteam,
            Command::LocateRelays => CommandView::LocateRelays,
            Command::PollRelays { delay_ms } => CommandView::PollRelays { delay_ms: *delay_ms as nat },
            Command::ResolveRelayHost => CommandView::ResolveRelayHost,
            Command::Connect(request) => CommandView::Connect(request@),
            Command::Stop => CommandView::Stop,
        }
    }
}

/// What the driver reports back.
#[derive(Debug)]
pub enum Input {
    /// Begin the run.
    Begin,
    /// The server directory; `None` where the directory state is not there.
    Servers(Option<Vec<Server>>),
    /// The way to authenticate; `None` where the settings could not be loaded.
    Settings(Option<AuthMode>),
    /// The cached access token, or why the store could not be read, and
    /// whether the token has expired.
    Tokens { tokens: Result<Option<String>, String>, expired: bool },
    /// The answer of Steam; `None` where Steam is not there.
    Steam(Option<Result<SteamAuthResult, String>>),
    /// Whether the relay state is there.
    RelaysLocated(bool),
    /// Whether every relay has been probed.
    RelaysPolled(bool),
    /// The host of the selected relay, if one is selected and known.
    RelayHost(Option<String>),
    /// How the launch went: `success` and a message, or a failure text.
    Launched(Result<ConnectionResult, String>),
}

/// A report of the driver as mathematical values.
pub enum InputView {
    Begin,
    Servers(Option<Seq<ServerView>>),
    Settings(Option<AuthMode>),
    Tokens { tokens: Result<Option<Seq<char>>, Seq<char>>, expired: bool },
    Steam(Option<Result<SteamAuthView, Seq<char>>>),
    RelaysLocated(bool),
    RelaysPolled(bool),
    RelayHost(Option<Seq<char>>),
    Launched(Result<ConnectionResultView, Seq<char>>),
}

impl View for Input {
    type V = InputView;

    open spec fn view(&self) -> InputView {
        match self {
            Input::Begin => InputView::Begin,
            Input::Servers(list) => InputView::Servers(
                match list {
                    Some(l) => Some(server_views(l@)),
                    None => None,
                },
            ),
            Input::Settings(mode) => InputView::Settings(*mode),
            Input::Tokens { tokens, expired } => InputView::Tokens {
                tokens: match tokens {
                    Ok(t) => Ok(opt_view(*t)),
                    Err(e) => Err(e@),
                },
                expired: *expired,
            },
            Input::Steam(outcome) => InputView::Steam(steam_outcome_view(*outcome)),
            Input::RelaysLocated(there) => InputView::RelaysLocated(*there),
            Input::RelaysPolled(done) => InputView::RelaysPolled(*done),
            Input::RelayHost(host) => InputView::RelayHost(opt_view(*host)),
            Input::Launched(outcome) => InputView::Launched(
                match outcome {
                    Ok(r) => Ok(r@),
                    Err(e) => Err(e@),
                },
            ),
        }
    }
}

/// The state of one auto-connect run.
#[derive(Debug)]
pub struct AutoConnect {
    /// The server asked for, as given.
    pub server_name: String,
    pub phase: Phase,
    /// The runtime version that the server recommends, once known.
    pub version: String,
    /// The port of the server, once known.
    pub port: String,
    /// The credential, once resolved.
    pub access_type: Option<String>,
    pub access_token: Option<String>,
    /// The host of the selected relay, once known.
    pub host: String,
    /// How many times the relays were found not to be ready.
    pub attempts: u32,
}

/// The state of a run as mathematical values.
pub struct AutoConnectView {
    pub server_name: Seq<char>,
    pub phase: Phase,
    pub version: Seq<char>,
    pub port: Seq<char>,
    pub access_type: Option<Seq<char>>,
    pub access_token: Option<Seq<char>>,
    pub host: Seq<char>,
    pub attempts: nat,
}

impl View for AutoConnect {
    type V = AutoConnectView;

    open spec fn view(&self) -> AutoConnectView {
        AutoConnectView {
            server_name: self.server_name@,
            phase: self.phase,
            version: self.version@,
            port: self.port@,
            access_type: opt_view(self.access_type),
            access_token: opt_view(self.access_token),
            host: self.host@,
            attempts: self.attempts as nat,
        }
    }
}

/// What one step comes to: the state after it, the statuses to broadcast, in
/// order, and what the driver is to do next.
#[derive(Debug)]
pub struct Step {
    pub machine: AutoConnect,
    pub emitted: Vec<AutoConnectEvent>,
    pub command: Command,
}

/// A step as mathematical values.
pub struct StepView {
    pub machine: AutoConnectView,
    pub emitted: Seq<AutoConnectEventView>,
    pub command: CommandView,
}

impl View for Step {
    type V = StepView;

    open spec fn view(&self) -> StepView {
        StepView {
            machine: self.machine@,
            emitted: event_views(self.emitted@),
            command: self.command@,
        }
    }
}

/// The tag under which a launch asked for by this workflow is recorded.
pub open spec fn source_tag() -> Seq<char> {
    "autoconnect"@
}

/// The status event of a run for the given stage.
pub open spec fn event_of(
    m: AutoConnectView,
    status: AutoConnectStatus,
    message: Option<Seq<char>>,
    linking_url: Option<Seq<char>>,
) -> AutoConnectEventView {
    AutoConnectEventView { status, server_name: m.server_name, message, linking_url }
}

/// The step that ends a run with the given statuses.
pub open spec fn stop_with(m: AutoConnectView, emitted: Seq<AutoConnectEventView>) -> StepView {
    StepView {
        machine: AutoConnectView { phase: Phase::Finished, ..m },
        emitted,
        command: CommandView::Stop,
    }
}

/// The step that ends a run with a single status.
pub open spec fn stop_at(
    m: AutoConnectView,
    status: AutoConnectStatus,
    message: Option<Seq<char>>,
    linking_url: Option<Seq<char>>,
) -> StepView {
    stop_with(m, seq![event_of(m, status, message, linking_url)])
}

/// The step that ends a run with the generic error status and a message.
pub open spec fn fail_with(m: AutoConnectView, message: Seq<char>) -> StepView {
    stop_at(m, AutoConnectStatus::Error, Some(message), None)
}

/// The step that goes on to another phase without a status.
pub open spec fn go_on(m: AutoConnectView, phase: Phase, command: CommandView) -> StepView {
    StepView {
        machine: AutoConnectView { phase, ..m },
        emitted: Seq::<AutoConnectEventView>::empty(),
        command,
    }
}

/// The launch request that the state of a run describes.
pub open spec fn request_of(m: AutoConnectView) -> ConnectRequestView {
    ConnectRequestView {
        version: m.version,
        host: m.host,
        port: m.port,
        access_type: m.access_type,
        access_token: m.access_token,
        server_name: m.server_name,
        map_name: None,
        source: Some(source_tag()),
    }
}

/// The command that a run is waiting on, by its state.
pub open spec fn pending(m: AutoConnectView) -> CommandView {
    match m.phase {
        Phase::Idle => CommandView::Stop,
        Phase::Servers => CommandView::FetchServers,
        Phase::Settings => CommandView::LoadSettings,
        Phase::Tokens => CommandView::ReadTokens,
        Phase::Steam => CommandView::AuthenticateSteam,
        Phase::LocateRelays => CommandView::LocateRelays,
        Phase::Relays => CommandView::PollRelays {
            delay_ms: if m.attempts == 0 {
                0
            } else {
                RELAY_POLL_INTERVAL_MS as nat
            },
        },
        Phase::RelayHost => CommandView::ResolveRelayHost,
        Phase::Connecting => CommandView::Connect(request_of(m)),
        Phase::Finished => CommandView::Stop,
    }
}

/// What the server directory decides. An empty directory is reported as
/// waiting for servers and then as an error: two statuses. Else the server
/// is looked up; it must be there, be available, have a port in its address
/// and recommend a runtime version, in this order.
pub open spec fn on_servers(m: AutoConnectView, list: Option<Seq<ServerView>>) -> StepView {
    match list {
        None => fail_with(m, "Server state not available"@),
        Some(servers) => if servers.len() == 0 {
            stop_with(
                m,
                seq![
                    event_of(m, AutoConnectStatus::WaitingForServers, None, None),
                    event_of(m, AutoConnectStatus::Error, Some("No servers available"@), None),
                ],
            )
        } else {
            match find_server_spec(servers, m.server_name) {
                None => stop_at(
                    m,
                    AutoConnectStatus::ServerNotFound,
                    Some("Server \""@ + m.server_name + "\" not found"@),
                    None,
                ),
                Some(i) => {
                    let server = servers[i];
                    if server.status != available_status() {
                        stop_at(
                            m,
                            AutoConnectStatus::ServerUnavailable,
                            Some(
                                "Server \""@ + m.server_name + "\" is currently unavailable"@,
                            ),
                            None,
                        )
                    } else {
                        match port_of(server.url) {
                            None => fail_with(m, "Invalid server configuration"@),
                            Some(port) => match server.recommended_byond_version {
                                None => fail_with(m, "No BYOND version specified"@),
                                Some(version) => go_on(
                                    AutoConnectView { port, version, ..m },
                                    Phase::Settings,
                                    CommandView::LoadSettings,
                                ),
                            },
                        }
                    }
                },
            }
        },
    }
}

/// The step that takes a credential and goes on to the relays.
pub open spec fn ready(m: AutoConnectView, tag: Option<Seq<char>>, value: Option<Seq<char>>)
    -> StepView {
    go_on(
        AutoConnectView { access_type: tag, access_token: value, ..m },
        Phase::LocateRelays,
        CommandView::LocateRelays,
    )
}

/// What the cached first-party tokens decide. A token that has not expired
/// is the credential. No token, or one that has expired, ends the run with
/// the request to log in. A store that cannot be read ends the run as an
/// error with the store's own message, whatever that message is.
pub open spec fn on_tokens(
    m: AutoConnectView,
    tokens: Result<Option<Seq<char>>, Seq<char>>,
    expired: bool,
) -> StepView {
    match tokens {
        Err(e) => fail_with(m, e),
        Ok(Some(token)) => if !expired {
            ready(m, Some(tag_first_party()), Some(token))
        } else {
            stop_at(m, AutoConnectStatus::AuthRequired, Some("Please log in to continue"@), None)
        },
        Ok(None) => stop_at(
            m,
            AutoConnectStatus::AuthRequired,
            Some("Please log in to continue"@),
            None,
        ),
    }
}

/// What the answer of the Steam identity provider decides, by its fields.
/// Success gives the credential. An answer without success that asks for
/// linking ends the run with the status that says so, carrying the address
/// that the provider gave, if it gave one. Every other failure ends the run
/// as an error: with the provider's message, whatever that message is; with
/// a fixed message where the provider gave none or is not there.
pub open spec fn on_steam(m: AutoConnectView, outcome: Option<Result<SteamAuthView, Seq<char>>>)
    -> StepView {
    match outcome {
        None => fail_with(m, "Steam not available"@),
        Some(Err(e)) => fail_with(m, e),
        Some(Ok(r)) => if r.success {
            ready(m, Some(tag_steam()), r.access_token)
        } else if r.requires_linking {
            stop_at(
                m,
                AutoConnectStatus::SteamLinkingRequired,
                Some("Steam account linking required"@),
                r.linking_url,
            )
        } else {
            fail_with(
                m,
                match r.error {
                    Some(e) => e,
                    None => "Steam authentication failed"@,
                },
            )
        },
    }
}

/// What the way to authenticate decides: which credential to ask for, or,
/// for the mode without a token, that the credential is at hand.
pub open spec fn on_settings(m: AutoConnectView, mode: Option<AuthMode>) -> StepView {
    match mode {
        None => fail_with(m, "Failed to load settings"@),
        Some(AuthMode::CmSs13) => go_on(m, Phase::Tokens, CommandView::ReadTokens),
        Some(AuthMode::Steam) => go_on(m, Phase::Steam, CommandView::AuthenticateSteam),
        Some(AuthMode::Byond) => ready(m, Some(tag_none()), None),
    }
}

/// What one answer of the relays decides: ready, and the host is resolved;
/// not ready, and the question is asked again after the interval, unless it
/// has now been asked as often as the limit allows.
pub open spec fn on_relays_polled(m: AutoConnectView, done: bool) -> StepView {
    if done {
        go_on(m, Phase::RelayHost, CommandView::ResolveRelayHost)
    } else if m.attempts + 1 >= RELAY_POLL_LIMIT {
        fail_with(m, "Timed out waiting for relays"@)
    } else {
        go_on(
            AutoConnectView { attempts: m.attempts + 1, ..m },
            Phase::Relays,
            CommandView::PollRelays { delay_ms: RELAY_POLL_INTERVAL_MS as nat },
        )
    }
}

/// The transition function of the workflow: the step that a state and a
/// report give. A report that the state is not waiting for changes nothing
/// and has the pending command repeated.
pub open spec fn step_spec(m: AutoConnectView, input: InputView) -> StepView {
    match (m.phase, input) {
        (Phase::Idle, InputView::Begin) => StepView {
            machine: AutoConnectView { phase: Phase::Servers, ..m },
            emitted: seq![event_of(m, AutoConnectStatus::Starting, None, None)],
            command: CommandView::FetchServers,
        },
        (Phase::Servers, InputView::Servers(list)) => on_servers(m, list),
        (Phase::Settings, InputView::Settings(mode)) => on_settings(m, mode),
        (Phase::Tokens, InputView::Tokens { tokens, expired }) => on_tokens(m, tokens, expired),
        (Phase::Steam, InputView::Steam(outcome)) => on_steam(m, outcome),
        (Phase::LocateRelays, InputView::RelaysLocated(there)) => if there {
            StepView {
                machine: AutoConnectView { phase: Phase::Relays, attempts: 0, ..m },
                emitted: seq![event_of(m, AutoConnectStatus::WaitingForRelays, None, None)],
                command: CommandView::PollRelays { delay_ms: 0 },
            }
        } else {
            fail_with(m, "Relay state not available"@)
        },
        (Phase::Relays, InputView::RelaysPolled(done)) => on_relays_polled(m, done),
        (Phase::RelayHost, InputView::RelayHost(host)) => match host {
            None => fail_with(m, "No relay available"@),
            Some(h) => {
                let next = AutoConnectView { phase: Phase::Connecting, host: h, ..m };
                StepView {
                    machine: next,
                    emitted: seq![event_of(m, AutoConnectStatus::Connecting, None, None)],
                    command: CommandView::Connect(request_of(next)),
                }
            },
        },
        (Phase::Connecting, InputView::Launched(outcome)) => match outcome {
            Ok(result) => if result.success {
                stop_at(m, AutoConnectStatus::Connected, None, None)
            } else {
                fail_with(m, result.message)
            },
            Err(e) => fail_with(m, e),
        },
        _ => StepView {
            machine: m,
            emitted: Seq::<AutoConnectEventView>::empty(),
            command: pending(m),
        },
    }
}

impl AutoConnect {
    /// A run for the given server that has not begun.
    pub fn new(server_name: String) -> (m: AutoConnect)
        ensures
            m@.server_name == server_name@,
            m@.phase == Phase::Idle,
            m@.attempts == 0,
            m@.access_type is None,
            m@.access_token is None,
            m@.version == Seq::<char>::empty(),
            m@.port == Seq::<char>::empty(),
            m@.host == Seq::<char>::empty(),
    {
        AutoConnect {
            server_name,
            phase: Phase::Idle,
            version: String::new(),
            port: String::new(),
            access_type: None,
            access_token: None,
            host: String::new(),
            attempts: 0,
        }
    }

    /// Whether the run has ended.
    pub fn is_finished(&self) -> (r: bool)
        ensures
            r == (self@.phase == Phase::Finished),
    {
        self.phase == Phase::Finished
    }

    fn event(
        &self,
        status: AutoConnectStatus,
        message: Option<String>,
        linking_url: Option<String>,
    ) -> (e: AutoConnectEvent)
        ensures
            e@ == event_of(self@, status, opt_view(message), opt_view(linking_url)),
    {
        AutoConnectEvent { status, server_name: self.server_name.clone(), message, linking_url }
    }

    fn request(&self) -> (r: ConnectRequest)
        ensures
            r@ == request_of(self@),
    {
        ConnectRequest {
            version: self.version.clone(),
            host: self.host.clone(),
            port: self.port.clone(),
            access_type: clone_opt(&self.access_type),
            access_token: clone_opt(&self.access_token),
            server_name: self.server_name.clone(),
            map_name: None,
            source: Some("autoconnect".to_owned()),
        }
    }

    /// The command that the run is waiting on.
    pub fn pending_command(&self) -> (c: Command)
        ensures
            c@ == pending(self@),
    {
        match self.phase {
            Phase::Idle => Command::Stop,
            Phase::Servers => Command::FetchServers,
            Phase::Settings => Command::LoadSettings,
            Phase::Tokens => Command::ReadTokens,
            Phase::Steam => Command::AuthenticateSteam,
            Phase::LocateRelays => Command::LocateRelays,
            Phase::Relays => Command::PollRelays {
                delay_ms: if self.attempts == 0 {
                    0
                } else {
                    RELAY_POLL_INTERVAL_MS
                },
            },
            Phase::RelayHost => Command::ResolveRelayHost,
            Phase::Connecting => Command::Connect(self.request()),
            Phase::Finished => Command::Stop,
        }
    }

    fn stop_with(self, emitted: Vec<AutoConnectEvent>) -> (r: Step)
        ensures
            r@ == stop_with(self@, event_views(emitted@)),
    {
        let mut machine = self;
        machine.phase = Phase::Finished;
        Step { machine, emitted, command: Command::Stop }
    }

    fn stop_at(
        self,
        status: AutoConnectStatus,
        message: Option<String>,
        linking_url: Option<String>,
    ) -> (r: Step)
        ensures
            r@ == stop_at(self@, status, opt_view(message), opt_view(linking_url)),
    {
        let e = self.event(status, message, linking_url);
        let emitted = vec![e];
        assert(event_views(emitted@) == seq![e@]);
        self.stop_with(emitted)
    }

    fn fail(self, message: String) -> (r: Step)
        ensures
            r@ == fail_with(self@, message@),
    {
        self.stop_at(AutoConnectStatus::Error, Some(message), None)
    }

    fn go_on(self, phase: Phase, command: Command) -> (r: Step)
        ensures
            r@ == go_on(self@, phase, command@),
    {
        let mut machine = self;
        machine.phase = phase;
        let emitted: Vec<AutoConnectEvent> = Vec::new();
        assert(event_views(emitted@) == Seq::<AutoConnectEventView>::empty());
        Step { machine, emitted, command }
    }

    fn stay(self) -> (r: Step)
        ensures
            r@.machine == self@,
            r@.emitted == Seq::<AutoConnectEventView>::empty(),
            r@.command == pending(self@),
    {
        let command = self.pending_command();
        let emitted: Vec<AutoConnectEvent> = Vec::new();
        assert(event_views(emitted@) == Seq::<AutoConnectEventView>::empty());
        Step { machine: self, emitted, command }
    }

    fn on_servers(self, list: Option<Vec<Server>>) -> (r: Step)
        ensures
            r@ == on_servers(
                self@,
                match list {
                    Some(l) => Some(server_views(l@)),
                    None => None,
                },
            ),
    {
        let servers = match list {
            None => {
                return self.fail("Server state not available".to_owned());
            },
            Some(servers) => servers,
        };
        if servers.len() == 0 {
            let waiting = self.event(AutoConnectStatus::WaitingForServers, None, None);
            let error = self.event(
                AutoConnectStatus::Error,
                Some("No servers available".to_owned()),
                None,
            );
            let emitted = vec![waiting, error];
            assert(event_views(emitted@) == seq![waiting@, error@]);
            return self.stop_with(emitted);
        }
        let i = match find_server(&servers, self.server_name.as_str()) {
            None => {
                let message = concat3("Server \"", self.server_name.as_str(), "\" not found");
                return self.stop_at(AutoConnectStatus::ServerNotFound, Some(message), None);
            },
            Some(i) => i,
        };
        let server = &servers[i];
        assert(server@ == server_views(servers@)[i as int]);
        if !is_available(server) {
            let message = concat3(
                "Server \"",
                self.server_name.as_str(),
                "\" is currently unavailable",
            );
            return self.stop_at(AutoConnectStatus::ServerUnavailable, Some(message), None);
        }
        let port = match parse_server_url(server.url.as_str()) {
            None => {
                return self.fail("Invalid server configuration".to_owned());
            },
            Some(port) => port,
        };
        let version = match clone_opt(&server.recommended_byond_version) {
            None => {
                return self.fail("No BYOND version specified".to_owned());
            },
            Some(version) => version,
        };
        let mut machine = self;
        machine.port = port;
        machine.version = version;
        machine.go_on(Phase::Settings, Command::LoadSettings)
    }

    fn ready(self, credential: Credential) -> (r: Step)
        ensures
            r@ == ready(self@, opt_view(credential.0), opt_view(credential.1)),
    {
        let mut machine = self;
        machine.access_type = credential.0;
        machine.access_token = credential.1;
        machine.go_on(Phase::LocateRelays, Command::LocateRelays)
    }

    fn on_tokens(self, tokens: Result<Option<String>, String>, expired: bool) -> (r: Step)
        ensures
            r@ == on_tokens(
                self@,
                match tokens {
                    Ok(t) => Ok(opt_view(t)),
                    Err(e) => Err(e@),
                },
                expired,
            ),
    {
        let store_failed = tokens.is_err();
        match tokens_to_credential(tokens, expired) {
            Ok(credential) => self.ready(credential),
            Err(message) => {
                if store_failed {
                    self.fail(message)
                } else {
                    self.stop_at(AutoConnectStatus::AuthRequired, Some(message), None)
                }
            },
        }
    }

    fn on_steam(self, outcome: Option<Result<SteamAuthResult, String>>) -> (r: Step)
        ensures
            r@ == on_steam(self@, steam_outcome_view(outcome)),
    {
        let linking: Option<Option<String>> = match &outcome {
            Some(Ok(answer)) => {
                if !answer.success && answer.requires_linking {
                    Some(clone_opt(&answer.linking_url))
                } else {
                    None
                }
            },
            _ => None,
        };
        match steam_to_credential(outcome) {
            Ok(credential) => self.ready(credential),
            Err(message) => match linking {
                Some(url) => self.stop_at(
                    AutoConnectStatus::SteamLinkingRequired,
                    Some(message),
                    url,
                ),
                None => self.fail(message),
            },
        }
    }

    fn on_settings(self, mode: Option<AuthMode>) -> (r: Step)
        ensures
            r@ == on_settings(self@, mode),
    {
        match mode {
            None => self.fail("Failed to load settings".to_owned()),
            Some(AuthMode::CmSs13) => self.go_on(Phase::Tokens, Command::ReadTokens),
            Some(AuthMode::Steam) => self.go_on(Phase::Steam, Command::AuthenticateSteam),
            Some(AuthMode::Byond) => self.ready((Some("byond".to_owned()), None)),
        }
    }

    fn on_relays_polled(self, done: bool) -> (r: Step)
        ensures
            r@ == on_relays_polled(self@, done),
    {
        if done {
            self.go_on(Phase::RelayHost, Command::ResolveRelayHost)
        } else if self.attempts >= RELAY_POLL_LIMIT - 1 {
            self.fail("Timed out waiting for relays".to_owned())
        } else {
            let mut machine = self;
            machine.attempts = machine.attempts + 1;
            machine.go_on(Phase::Relays, Command::PollRelays { delay_ms: RELAY_POLL_INTERVAL_MS })
        }
    }
}

impl AutoConnect {
    /// One step of the workflow: takes what the driver reports and gives the
    /// state after it, the statuses to broadcast and the next command.
    pub fn step(self, input: Input) -> (r: Step)
        ensures
            r@ == step_spec(self@, input@),
    {
        match input {
            Input::Begin => {
                if self.phase == Phase::Idle {
                    let e = self.event(AutoConnectStatus::Starting, None, None);
                    let emitted = vec![e];
                    assert(event_views(emitted@) == seq![e@]);
                    let mut machine = self;
                    machine.phase = Phase::Servers;
                    Step { machine, emitted, command: Command::FetchServers }
                } else {
                    self.stay()
                }
            },
            Input::Servers(list) => {
                if self.phase == Phase::Servers {
                    self.on_servers(list)
                } else {
                    self.stay()
                }
            },
            Input::Settings(mode) => {
                if self.phase == Phase::Settings {
                    self.on_settings(mode)
                } else {
                    self.stay()
                }
            },
            Input::Tokens { tokens, expired } => {
                if self.phase == Phase::Tokens {
                    self.on_tokens(tokens, expired)
                } else {
                    self.stay()
                }
            },
            Input::Steam(outcome) => {
                if self.phase == Phase::Steam {
                    self.on_steam(outcome)
                } else {
                    self.stay()
                }
            },
            Input::RelaysLocated(there) => {
                if self.phase == Phase::LocateRelays {
                    if there {
                        let e = self.event(AutoConnectStatus::WaitingForRelays, None, None);
                        let emitted = vec![e];
                        assert(event_views(emitted@) == seq![e@]);
                        let mut machine = self;
                        machine.phase = Phase::Relays;
                        machine.attempts = 0;
                        Step { machine, emitted, command: Command::PollRelays { delay_ms: 0 } }
                    } else {
                        self.fail("Relay state not available".to_owned())
                    }
                } else {
                    self.stay()
                }
            },
            Input::RelaysPolled(done) => {
                if self.phase == Phase::Relays {
                    self.on_relays_polled(done)
                } else {
                    self.stay()
                }
            },
            Input::RelayHost(host) => {
                if self.phase == Phase::RelayHost {
                    match host {
                        None => self.fail("No relay available".to_owned()),
                        Some(h) => {
                            let e = self.event(AutoConnectStatus::Connecting, None, None);
                            let emitted = vec![e];
                            assert(event_views(emitted@) == seq![e@]);
                            let mut machine = self;
                            machine.phase = Phase::Connecting;
                            machine.host = h;
                            let command = Command::Connect(machine.request());
                            Step { machine, emitted, command }
                        },
                    }
                } else {
                    self.stay()
                }
            },
            Input::Launched(outcome) => {
                if self.phase == Phase::Connecting {
                    match outcome {
                        Ok(result) => {
                            if result.success {
                                self.stop_at(AutoConnectStatus::Connected, None, None)
                            } else {
                                self.fail(result.message)
                            }
                        },
                        Err(e) => self.fail(e),
                    }
                } else {
                    self.stay()
                }
            },
        }
    }
}

/// What a run comes to: the state after the last report, all statuses that
/// were broadcast, in order, and all commands that were given, in order.
pub struct RunView {
    pub machine: AutoConnectView,
    pub emitted: Seq<AutoConnectEventView>,
    pub commands: Seq<CommandView>,
}

/// The run that a state and a series of reports give.
pub open spec fn run_spec(m: AutoConnectView, inputs: Seq<InputView>) -> RunView
    decreases inputs.len(),
{
    if inputs.len() == 0 {
        RunView {
            machine: m,
            emitted: Seq::<AutoConnectEventView>::empty(),
            commands: Seq::<CommandView>::empty(),
        }
    } else {
        let before = run_spec(m, inputs.drop_last());
        let step = step_spec(before.machine, inputs.last());
        RunView {
            machine: step.machine,
            emitted: before.emitted + step.emitted,
            commands: before.commands.push(step.command),
        }
    }
}

/// The views of a list of reports.
pub open spec fn input_views(inputs: Seq<Input>) -> Seq<InputView> {
    inputs.map_values(|i: Input| i@)
}

/// The views of a list of commands.
pub open spec fn command_views(commands: Seq<Command>) -> Seq<CommandView> {
    commands.map_values(|c: Command| c@)
}

/// What a run has come to: the state after the last report, all statuses
/// that were broadcast, in order, and all commands that were given, in order.
#[derive(Debug)]
pub struct Run {
    pub machine: AutoConnect,
    pub emitted: Vec<AutoConnectEvent>,
    pub commands: Vec<Command>,
}

impl View for Run {
    type V = RunView;

    open spec fn view(&self) -> RunView {
        RunView {
            machine: self.machine@,
            emitted: event_views(self.emitted@),
            commands: command_views(self.commands@),
        }
    }
}

/// Runs the workflow for a server over a series of reports, the first of
/// which is the one that begins the run, and gives all that the run
/// broadcasts and commands.
pub fn perform_autoconnect(server_name: String, reports: Vec<Input>) -> (run: Run)
    ensures
        run@ == run_spec(
            AutoConnectView {
                server_name: server_name@,
                phase: Phase::Idle,
                version: Seq::<char>::empty(),
                port: Seq::<char>::empty(),
                access_type: None,
                access_token: None,
                host: Seq::<char>::empty(),
                attempts: 0,
            },
            input_views(reports@),
        ),
{
    let ghost all = input_views(reports@);
    let mut machine = AutoConnect::new(server_name);
    let ghost start = machine@;
    let mut emitted: Vec<AutoConnectEvent> = Vec::new();
    let mut commands: Vec<Command> = Vec::new();
    let mut rest = reports;
    let ghost mut done: int = 0;
    proof {
        assert(all.take(0) =~= Seq::<InputView>::empty());
        assert(event_views(emitted@) =~= Seq::<AutoConnectEventView>::empty());
        assert(command_views(commands@) =~= Seq::<CommandView>::empty());
        assert(input_views(rest@) =~= all.skip(0));
    }
    while rest.len() > 0
        invariant
            0 <= done <= all.len(),
            input_views(rest@) == all.skip(done),
            (RunView {
                machine: machine@,
                emitted: event_views(emitted@),
                commands: command_views(commands@),
            }) == run_spec(start, all.take(done)),
        decreases rest.len(),
    {
        let ghost before_rest = input_views(rest@);
        let ghost old_rest = rest@;
        let input = rest.remove(0);
        proof {
            assert(before_rest.len() == old_rest.len());
            assert(done < all.len());
            assert(input@ == before_rest[0]);
            assert(all.skip(done)[0] == all[done]);
            assert(input@ == all[done]);
            assert(rest@ =~= old_rest.skip(1));
            assert forall|k: int| 0 <= k < rest@.len() implies input_views(rest@)[k] == all.skip(
                done + 1,
            )[k] by {
                assert(rest@[k] == old_rest[k + 1]);
                assert(before_rest[k + 1] == old_rest[k + 1]@);
                assert(all.skip(done)[k + 1] == all[done + k + 1]);
            }
            assert(input_views(rest@) =~= all.skip(done + 1));
            assert(all.take(done + 1).drop_last() =~= all.take(done));
            assert(all.take(done + 1).last() == all[done]);
        }
        let step = machine.step(input);
        machine = step.machine;
        let ghost before_emitted = event_views(emitted@);
        let ghost before_commands = command_views(commands@);
        let mut fresh = step.emitted;
        let ghost fresh_views = event_views(fresh@);
        emitted.append(&mut fresh);
        commands.push(step.command);
        proof {
            assert(event_views(emitted@) =~= before_emitted + fresh_views);
            assert(command_views(commands@) =~= before_commands.push(step.command@));
            done = done + 1;
        }
    }
    proof {
        assert(all.skip(done).len() == 0);
        assert(all.take(done) =~= all);
    }
    Run { machine, emitted, commands }
}

/// A run that has ended stays ended: whatever is reported to it, it
/// broadcasts nothing, commands nothing and does not change.
pub proof fn law_finished_is_final(m: AutoConnectView, input: InputView)
    requires
        m.phase == Phase::Finished,
    ensures
        step_spec(m, input).machine == m,
        step_spec(m, input).emitted.len() == 0,
        step_spec(m, input).command == CommandView::Stop,
{
}

/// What one step broadcasts: at most two statuses, of which only the last
/// can be one that ends a run; and the step broadcasts such a status exactly
/// where it ends the run.
pub proof fn lemma_step_emits_in_order(m: AutoConnectView, input: InputView)
    ensures
        ({
            let step = step_spec(m, input);
            &&& step.emitted.len() <= 2
            &&& forall|i: int|
                0 <= i < step.emitted.len() - 1 ==> !is_terminal(
                    (#[trigger] step.emitted[i]).status,
                )
            &&& (m.phase != Phase::Finished && step.machine.phase == Phase::Finished)
                <==> (step.emitted.len() > 0 && is_terminal(step.emitted.last().status))
            &&& forall|i: int|
                0 <= i < step.emitted.len() ==> (#[trigger] step.emitted[i]).server_name
                    == m.server_name
            &&& step.machine.server_name == m.server_name
        }),
{
    let step = step_spec(m, input);
    match (m.phase, input) {
        (Phase::Servers, InputView::Servers(list)) => {},
        (Phase::Settings, InputView::Settings(mode)) => {},
        (Phase::Tokens, InputView::Tokens { tokens, expired }) => {},
        (Phase::Steam, InputView::Steam(outcome)) => {},
        _ => {},
    }
}

/// The text that the Steam identity provider gave for a failure, where it
/// gave one: the failure of the request itself, or the message of an answer
/// without success.
pub open spec fn provider_message(outcome: Option<Result<SteamAuthView, Seq<char>>>) -> Option<
    Seq<char>,
> {
    match outcome {
        Some(Err(e)) => Some(e),
        Some(Ok(r)) => r.error,
        None => None,
    }
}

/// A failure of the Steam identity provider is reported by what the answer
/// says in its fields, never by how its text reads. Where the answer asks
/// for linking, the run ends with the status that says so, and the status
/// carries the address exactly as the provider gave it. Every other failure
/// ends the run as an error whose message is the provider's text, whatever
/// that text is. In both cases nothing more is commanded: no wait for the
/// relays, and no launch.
pub proof fn law_provider_failure_is_reported(
    m: AutoConnectView,
    outcome: Option<Result<SteamAuthView, Seq<char>>>,
)
    requires
        m.phase == Phase::Steam,
        !(outcome matches Some(Ok(r)) && r.success),
    ensures
        ({
            let step = step_spec(m, InputView::Steam(outcome));
            &&& step.machine.phase == Phase::Finished
            &&& step.command == CommandView::Stop
            &&& step.emitted.len() == 1
            &&& step.emitted[0].server_name == m.server_name
            &&& if linking_asked(outcome) {
                &&& step.emitted[0].status == AutoConnectStatus::SteamLinkingRequired
                &&& step.emitted[0].linking_url == outcome->0->Ok_0.linking_url
            } else {
                &&& step.emitted[0].status == AutoConnectStatus::Error
                &&& step.emitted[0].linking_url is None
                &&& step.emitted[0].message is Some
                &&& provider_message(outcome) is Some ==> step.emitted[0].message
                    == provider_message(outcome)
            }
        }),
{
}

/// Whether a report is that of a token store that calls for a login,
/// given to a run that waits for the cached tokens.
pub open spec fn login_reported(m: AutoConnectView, input: InputView) -> bool {
    m.phase == Phase::Tokens && match input {
        InputView::Tokens { tokens, expired } => login_needed(tokens, expired),
        _ => false,
    }
}

/// Whether a report is that of an answer of Steam that asks for linking,
/// given to a run that waits for Steam.
pub open spec fn linking_reported(m: AutoConnectView, input: InputView) -> bool {
    m.phase == Phase::Steam && match input {
        InputView::Steam(outcome) => linking_asked(outcome),
        _ => false,
    }
}

/// The request to log in comes from the token store alone: a step
/// broadcasts it exactly where the run waits for the cached tokens, the
/// store could be read, and there is no token or the token has expired.
pub proof fn law_login_is_asked_by_the_token_store(m: AutoConnectView, input: InputView)
    ensures
        ({
            let step = step_spec(m, input);
            (exists|i: int|
                0 <= i < step.emitted.len() && (#[trigger] step.emitted[i]).status
                    == AutoConnectStatus::AuthRequired) <==> login_reported(m, input)
        }),
{
    let step = step_spec(m, input);
    if login_reported(m, input) {
        assert(step.emitted[0].status == AutoConnectStatus::AuthRequired);
    }
}

/// An address for linking is carried by the status that asks for linking
/// and by no other; and that status is broadcast exactly where the run
/// waits for Steam and the answer asks for linking.
pub proof fn law_linking_address_only_with_linking(m: AutoConnectView, input: InputView)
    ensures
        ({
            let step = step_spec(m, input);
            &&& forall|i: int|
                0 <= i < step.emitted.len() && (#[trigger] step.emitted[i]).status
                    != AutoConnectStatus::SteamLinkingRequired ==> step.emitted[i].linking_url
                    is None
            &&& (exists|i: int|
                0 <= i < step.emitted.len() && (#[trigger] step.emitted[i]).status
                    == AutoConnectStatus::SteamLinkingRequired) <==> linking_reported(m, input)
        }),
{
    let step = step_spec(m, input);
    if linking_reported(m, input) {
        assert(step.emitted[0].status == AutoConnectStatus::SteamLinkingRequired);
    }
}

/// In all that a run broadcasts, an address for linking is carried by the
/// status that asks for linking and by no other.
pub proof fn law_run_carries_address_only_with_linking(m: AutoConnectView, inputs: Seq<InputView>)
    ensures
        forall|i: int|
            0 <= i < run_spec(m, inputs).emitted.len() && (#[trigger] run_spec(
                m,
                inputs,
            ).emitted[i]).status != AutoConnectStatus::SteamLinkingRequired ==> run_spec(
                m,
                inputs,
            ).emitted[i].linking_url is None,
    decreases inputs.len(),
{
    if inputs.len() > 0 {
        let before = run_spec(m, inputs.drop_last());
        law_run_carries_address_only_with_linking(m, inputs.drop_last());
        law_linking_address_only_with_linking(before.machine, inputs.last());
        let step = step_spec(before.machine, inputs.last());
        let run = run_spec(m, inputs);
        assert forall|i: int|
            0 <= i < run.emitted.len() && (#[trigger] run.emitted[i]).status
                != AutoConnectStatus::SteamLinkingRequired implies run.emitted[i].linking_url
            is None by {
            if i < before.emitted.len() {
                assert(run.emitted[i] == before.emitted[i]);
            } else {
                assert(run.emitted[i] == step.emitted[i - before.emitted.len()]);
            }
        }
    }
}

/// Every run broadcasts its statuses in order and ends at most once: in
/// what a run from a fresh state has broadcast, a status that ends a run can
/// only stand last, and it stands there exactly where the run has ended.
/// Every status names the server that was asked for.
pub proof fn law_run_ends_once(m: AutoConnectView, inputs: Seq<InputView>)
    requires
        m.phase != Phase::Finished,
    ensures
        ({
            let run = run_spec(m, inputs);
            &&& forall|i: int|
                0 <= i < run.emitted.len() - 1 ==> !is_terminal((#[trigger] run.emitted[i]).status)
            &&& (run.machine.phase == Phase::Finished) <==> (run.emitted.len() > 0 && is_terminal(
                run.emitted.last().status,
            ))
            &&& forall|i: int|
                0 <= i < run.emitted.len() ==> (#[trigger] run.emitted[i]).server_name
                    == m.server_name
            &&& run.machine.server_name == m.server_name
        }),
    decreases inputs.len(),
{
    if inputs.len() > 0 {
        let before = run_spec(m, inputs.drop_last());
        law_run_ends_once(m, inputs.drop_last());
        lemma_step_emits_in_order(before.machine, inputs.last());
        let step = step_spec(before.machine, inputs.last());
        let run = run_spec(m, inputs);
        assert(run.emitted == before.emitted + step.emitted);
        if before.machine.phase == Phase::Finished {
            assert(step.emitted.len() == 0);
            assert(run.emitted =~= before.emitted);
        } else {
            assert forall|i: int| 0 <= i < run.emitted.len() - 1 implies !is_terminal(
                (#[trigger] run.emitted[i]).status,
            ) by {
                if i < before.emitted.len() {
                    assert(run.emitted[i] == before.emitted[i]);
                    if i == before.emitted.len() - 1 {
                        assert(!is_terminal(before.emitted.last().status));
                    }
                } else {
                    assert(run.emitted[i] == step.emitted[i - before.emitted.len()]);
                }
            }
            if step.emitted.len() > 0 {
                assert(run.emitted.last() == step.emitted.last());
            } else {
                assert(run.emitted =~= before.emitted);
            }
        }
        assert forall|i: int| 0 <= i < run.emitted.len() implies (#[trigger] run.emitted[i]).server_name
            == m.server_name by {
            if i < before.emitted.len() {
                assert(run.emitted[i] == before.emitted[i]);
            } else {
                assert(run.emitted[i] == step.emitted[i - before.emitted.len()]);
            }
        }
    }
}

/// A server that is not available ends the run before any credential is
/// asked for: where the server asked for is in the directory with a status
/// other than `available`, the run ends with the one status that says so,
/// whose message quotes the name asked for.
pub proof fn law_unavailable_server_ends_run(m: AutoConnectView, servers: Seq<ServerView>)
    requires
        m.phase == Phase::Servers,
        servers.len() > 0,
        find_server_spec(servers, m.server_name) matches Some(i) && servers[i].status
            != available_status(),
    ensures
        ({
            let step = step_spec(m, InputView::Servers(Some(servers)));
            &&& step.machine.phase == Phase::Finished
            &&& step.command == CommandView::Stop
            &&& step.emitted.len() == 1
            &&& step.emitted[0].status == AutoConnectStatus::ServerUnavailable
            &&& step.emitted[0].message matches Some(text) && contains_seq(text, m.server_name)
        }),
{
    let step = step_spec(m, InputView::Servers(Some(servers)));
    let text = "Server \""@ + m.server_name + "\" is currently unavailable"@;
    let at = "Server \""@.len() as int;
    assert(text.subrange(at, at + m.server_name.len()) == m.server_name);
    assert(occurs_at(text, m.server_name, at));
}

/// The reports of `n` questions to the relays that each found them not
/// ready.
pub open spec fn not_ready(n: nat) -> Seq<InputView> {
    Seq::new(n, |i: int| InputView::RelaysPolled(false))
}

proof fn lemma_waiting_for_relays(m: AutoConnectView, n: nat)
    requires
        m.phase == Phase::Relays,
        m.attempts == 0,
        n < RELAY_POLL_LIMIT,
    ensures
        ({
            let run = run_spec(m, not_ready(n));
            &&& run.machine == AutoConnectView { attempts: n, ..m }
            &&& run.emitted.len() == 0
            &&& run.commands.len() == n
            &&& forall|i: int|
                0 <= i < n ==> #[trigger] run.commands[i] == (CommandView::PollRelays {
                    delay_ms: RELAY_POLL_INTERVAL_MS as nat,
                })
        }),
    decreases n,
{
    if n > 0 {
        lemma_waiting_for_relays(m, (n - 1) as nat);
        assert(not_ready(n).drop_last() == not_ready((n - 1) as nat));
        assert(not_ready(n).last() == InputView::RelaysPolled(false));
        let before = run_spec(m, not_ready((n - 1) as nat));
        assert(before.emitted + Seq::<AutoConnectEventView>::empty() == before.emitted);
    } else {
        assert(m == AutoConnectView { attempts: 0, ..m });
    }
}

/// The wait for the relays is bounded. Relays that are found not ready as
/// often as the limit allows end the run with the error that says that the
/// wait timed out: before that the question is asked again after the
/// interval each time, and at no point is a launch commanded.
pub proof fn law_relay_wait_times_out(m: AutoConnectView)
    requires
        m.phase == Phase::Relays,
        m.attempts == 0,
    ensures
        ({
            let run = run_spec(m, not_ready(RELAY_POLL_LIMIT as nat));
            &&& run.machine.phase == Phase::Finished
            &&& run.emitted.len() == 1
            &&& run.emitted[0] == event_of(
                m,
                AutoConnectStatus::Error,
                Some("Timed out waiting for relays"@),
                None,
            )
            &&& run.commands.len() == RELAY_POLL_LIMIT
            &&& run.commands.last() == CommandView::Stop
            &&& forall|i: int| 0 <= i < run.commands.len() ==> !(#[trigger] run.commands[i] is Connect)
        }),
{
    let n = RELAY_POLL_LIMIT as nat;
    lemma_waiting_for_relays(m, (n - 1) as nat);
    assert(not_ready(n).drop_last() == not_ready((n - 1) as nat));
    assert(not_ready(n).last() == InputView::RelaysPolled(false));
    let before = run_spec(m, not_ready((n - 1) as nat));
    let run = run_spec(m, not_ready(n));
    let step = step_spec(before.machine, InputView::RelaysPolled(false));
    assert(step == fail_with(before.machine, "Timed out waiting for relays"@));
    assert(run.emitted =~= step.emitted);
    assert forall|i: int| 0 <= i < run.commands.len() implies !(#[trigger] run.commands[i] is Connect) by {
        if i < n - 1 {
            assert(run.commands[i] == before.commands[i]);
        }
    }
}

/// The server name that launch options ask for: the options without
/// surrounding white space, where anything is left.
pub open spec fn requested_server(launch_options: Seq<char>) -> Option<Seq<char>> {
    if trimmed(launch_options).len() == 0 {
        None
    } else {
        Some(trimmed(launch_options))
    }
}

/// Decides from the launch options whether to connect on start, and to
/// which server. `launch_options` is nothing where the platform that hands
/// them over is not there.
pub fn check_and_start_autoconnect(launch_options: Option<&str>) -> (r: Option<AutoConnect>)
    ensures
        match launch_options {
            None => r is None,
            Some(options) => match requested_server(options@) {
                None => r is None,
                Some(name) => r matches Some(m) && m@.server_name == name && m@.phase
                    == Phase::Idle,
            },
        },
{
    match launch_options {
        None => None,
        Some(options) => {
            let name = trim(options);
            if name.as_str().unicode_len() == 0 {
                None
            } else {
                Some(AutoConnect::new(name))
            }
        },
    }
}

} // verus!
