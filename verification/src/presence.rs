//! What the launcher shows of itself to the outside: whether the user is in
//! the launcher or playing, and on which server.

use vstd::prelude::*;
use crate::servers::{
    clone_opt, find_exact_spec, find_server_exact, opt_view, server_views, Server, ServerView,
};

verus! {

/// A game session that is under way.
#[derive(Debug, Clone)]
pub struct GameSession {
    pub server_name: String,
    pub map_name: Option<String>,
}

/// What is needed to start the last connection once more.
#[derive(Debug, Clone)]
pub struct ConnectionParams {
    pub version: String,
    pub host: String,
    pub port: String,
    pub access_type: Option<String>,
    pub access_token: Option<String>,
    pub server_name: String,
    pub map_name: Option<String>,
}

/// The parameters of a connection as mathematical values.
pub struct ConnectionParamsView {
    pub version: Seq<char>,
    pub host: Seq<char>,
    pub port: Seq<char>,
    pub access_type: Option<Seq<char>>,
    pub access_token: Option<Seq<char>>,
    pub server_name: Seq<char>,
    pub map_name: Option<Seq<char>>,
}

impl View for ConnectionParams {
    type V = ConnectionParamsView;

    open spec fn view(&self) -> ConnectionParamsView {
        ConnectionParamsView {
            version: self.version@,
            host: self.host@,
            port: self.port@,
            access_type: opt_view(self.access_type),
            access_token: opt_view(self.access_token),
            server_name: self.server_name@,
            map_name: opt_view(self.map_name),
        }
    }
}

/// What is shown of the user.
#[derive(Debug, Clone)]
pub enum PresenceState {
    /// The user is in the launcher.
    InLauncher,
    /// The user is playing on a server.
    Playing { server_name: String, player_count: u32, map_name: Option<String> },
    /// Nothing is shown.
    Disconnected,
}

/// A channel on which presence is shown, such as Steam or Discord.
pub trait PresenceProvider: Send + Sync {
    /// The name of the channel.
    fn name(&self) -> &'static str;

    /// Shows the given state.
    fn update_presence(&self, state: &PresenceState);

    /// Shows nothing.
    fn clear_presence(&self);
}

/// A game session as mathematical values.
pub struct GameSessionView {
    pub server_name: Seq<char>,
    pub map_name: Option<Seq<char>>,
}

impl View for GameSession {
    type V = GameSessionView;

    open spec fn view(&self) -> GameSessionView {
        GameSessionView { server_name: self.server_name@, map_name: opt_view(self.map_name) }
    }
}

/// What is shown of the user, as mathematical values.
pub enum PresenceStateView {
    InLauncher,
    Playing { server_name: Seq<char>, player_count: u32, map_name: Option<Seq<char>> },
    Disconnected,
}

impl View for PresenceState {
    type V = PresenceStateView;

    open spec fn view(&self) -> PresenceStateView {
        match self {
            PresenceState::InLauncher => PresenceStateView::InLauncher,
            PresenceState::Playing { server_name, player_count, map_name } => {
                PresenceStateView::Playing {
                    server_name: server_name@,
                    player_count: *player_count,
                    map_name: opt_view(*map_name),
                }
            },
            PresenceState::Disconnected => PresenceStateView::Disconnected,
        }
    }
}

/// The view of an optional session.
pub open spec fn session_view(s: Option<GameSession>) -> Option<GameSessionView> {
    match s {
        Some(g) => Some(g@),
        None => None,
    }
}

/// The view of an optional presence.
pub open spec fn presence_view(p: Option<PresenceState>) -> Option<PresenceStateView> {
    match p {
        Some(s) => Some(s@),
        None => None,
    }
}

/// What a look at the process of the game client found.
#[derive(Debug, Clone, Copy, PartialEq, Eq, Structural)]
pub enum ProcessProbe {
    /// No game client was started.
    NoProcess,
    /// The game client is running.
    Running,
    /// The game client has exited.
    Exited,
    /// The process could not be looked at; it is taken to be gone.
    Failed,
}

/// The session of the game client that the launcher has started, and what
/// is needed to start the last connection once more.
#[derive(Debug)]
pub struct PresenceManager {
    pub game_session: Option<GameSession>,
    pub last_connection_params: Option<ConnectionParams>,
}

impl PresenceManager {
    /// A manager without a session.
    pub fn new() -> (m: PresenceManager)
        ensures
            m.game_session is None,
            m.last_connection_params is None,
    {
        PresenceManager { game_session: None, last_connection_params: None }
    }

    /// Takes note that a game has been started on a server. Gives what is
    /// to be shown: the user plays on that server, with no players counted
    /// yet.
    pub fn start_game_session(&mut self, server_name: String, map_name: Option<String>) -> (shown:
        PresenceState)
        ensures
            session_view(final(self).game_session) == Some(
                GameSessionView { server_name: server_name@, map_name: opt_view(map_name) },
            ),
            final(self).last_connection_params == old(self).last_connection_params,
            shown@ == (PresenceStateView::Playing {
                server_name: server_name@,
                player_count: 0,
                map_name: opt_view(map_name),
            }),
    {
        self.game_session = Some(
            GameSession { server_name: server_name.clone(), map_name: clone_opt(&map_name) },
        );
        PresenceState::Playing { server_name, player_count: 0, map_name }
    }

    /// Ends the session. Gives what is to be shown: the user is in the
    /// launcher.
    pub fn clear_game_session(&mut self) -> (shown: PresenceState)
        ensures
            final(self).game_session is None,
            final(self).last_connection_params == old(self).last_connection_params,
            shown@ == PresenceStateView::InLauncher,
    {
        self.game_session = None;
        PresenceState::InLauncher
    }

    /// Takes in a look at the process of the game client. The game runs
    /// where the process does. A process that has exited, or cannot be
    /// looked at, ends the session, and the user is shown to be in the
    /// launcher.
    pub fn check_game_running(&mut self, probe: ProcessProbe) -> (r: (bool, Option<PresenceState>))
        ensures
            r.0 == (probe == ProcessProbe::Running),
            final(self).last_connection_params == old(self).last_connection_params,
            probe == ProcessProbe::Exited || probe == ProcessProbe::Failed ==> final(self).game_session is None && presence_view(r.1) == Some(PresenceStateView::InLauncher),
            probe == ProcessProbe::Running || probe == ProcessProbe::NoProcess ==> final(self).game_session == old(self).game_session && r.1 is None,
    {
        match probe {
            ProcessProbe::Running => (true, None),
            ProcessProbe::NoProcess => (false, None),
            ProcessProbe::Exited | ProcessProbe::Failed => {
                let shown = self.clear_game_session();
                (false, Some(shown))
            },
        }
    }

    /// The session that is under way, if any.
    pub fn get_game_session(&self) -> (s: Option<GameSession>)
        ensures
            session_view(s) == session_view(self.game_session),
    {
        match &self.game_session {
            Some(g) => Some(
                GameSession { server_name: g.server_name.clone(), map_name: clone_opt(&g.map_name) },
            ),
            None => None,
        }
    }

    /// Remembers what is needed to start a connection once more.
    pub fn set_last_connection_params(&mut self, params: ConnectionParams)
        ensures
            final(self).last_connection_params == Some(params),
            final(self).game_session == old(self).game_session,
    {
        self.last_connection_params = Some(params);
    }

    /// What is needed to start the last connection once more, if a
    /// connection was made.
    pub fn get_last_connection_params(&self) -> (p: Option<ConnectionParams>)
        ensures
            match (p, self.last_connection_params) {
                (Some(a), Some(b)) => a@ == b@,
                (None, None) => true,
                _ => false,
            },
    {
        match &self.last_connection_params {
            Some(c) => Some(
                ConnectionParams {
                    version: c.version.clone(),
                    host: c.host.clone(),
                    port: c.port.clone(),
                    access_type: clone_opt(&c.access_type),
                    access_token: clone_opt(&c.access_token),
                    server_name: c.server_name.clone(),
                    map_name: clone_opt(&c.map_name),
                },
            ),
            None => None,
        }
    }

    /// Takes in an attempt to kill the game client: nothing where there was
    /// no process, else whether the process could be killed. A process that
    /// was killed ends the session, and the user is shown to be in the
    /// launcher.
    pub fn kill_game_process(&mut self, killed: Option<bool>) -> (r: (bool, Option<PresenceState>))
        ensures
            r.0 == (killed == Some(true)),
            final(self).last_connection_params == old(self).last_connection_params,
            killed == Some(true) ==> final(self).game_session is None && presence_view(r.1)
                == Some(PresenceStateView::InLauncher),
            killed != Some(true) ==> final(self).game_session == old(self).game_session && r.1
                is None,
    {
        match killed {
            Some(true) => {
                let shown = self.clear_game_session();
                (true, Some(shown))
            },
            _ => (false, None),
        }
    }
}

/// What the watcher of the game remembers from one look to the next.
#[derive(Debug)]
pub struct PresenceWatch {
    pub was_game_running: bool,
    pub last_player_count: Option<i32>,
    pub last_map_name: Option<String>,
}

/// What the watcher remembers, as mathematical values.
pub struct PresenceWatchView {
    pub was_game_running: bool,
    pub last_player_count: Option<i32>,
    pub last_map_name: Option<Seq<char>>,
}

impl View for PresenceWatch {
    type V = PresenceWatchView;

    open spec fn view(&self) -> PresenceWatchView {
        PresenceWatchView {
            was_game_running: self.was_game_running,
            last_player_count: self.last_player_count,
            last_map_name: opt_view(self.last_map_name),
        }
    }
}

/// The number of players and the map that are shown for a session: those
/// of the server of that name in the directory, where the directory is
/// there and has the server with live data; the map of the session, and no
/// number, otherwise.
pub open spec fn shown_for(session: GameSessionView, servers: Option<Seq<ServerView>>) -> (
    Option<i32>,
    Option<Seq<char>>,
) {
    match servers {
        None => (None, session.map_name),
        Some(list) => match find_exact_spec(list, session.server_name) {
            None => (None, session.map_name),
            Some(i) => match list[i].data {
                Some(d) => (Some(d.players as i32), Some(d.map_name)),
                None => (None, session.map_name),
            },
        },
    }
}

/// The number of players as it is shown: the count where there is one, as
/// an unsigned number of 32 bits; zero where there is none.
pub open spec fn shown_count(count: Option<i32>) -> u32 {
    match count {
        Some(c) => c as u32,
        None => 0,
    }
}

/// What one look of the watcher comes to: what the watcher remembers
/// afterwards, what is to be shown, if anything new, and whether the front
/// end is told that the game was closed. While the game runs with a session,
/// the presence is shown anew whenever the number of players or the map
/// differ from what was shown last. When the game no longer runs, the user
/// is shown to be in the launcher, once.
pub open spec fn watch_step(
    w: PresenceWatchView,
    game_running: bool,
    session: Option<GameSessionView>,
    servers: Option<Seq<ServerView>>,
) -> (PresenceWatchView, Option<PresenceStateView>, bool) {
    if game_running {
        match session {
            None => (PresenceWatchView { was_game_running: true, ..w }, None, false),
            Some(s) => {
                let (count, map) = shown_for(s, servers);
                if count != w.last_player_count || map != w.last_map_name {
                    (
                        PresenceWatchView {
                            was_game_running: true,
                            last_player_count: count,
                            last_map_name: map,
                        },
                        Some(
                            PresenceStateView::Playing {
                                server_name: s.server_name,
                                player_count: shown_count(count),
                                map_name: map,
                            },
                        ),
                        false,
                    )
                } else {
                    (PresenceWatchView { was_game_running: true, ..w }, None, false)
                }
            },
        }
    } else if w.was_game_running {
        (
            PresenceWatchView {
                was_game_running: false,
                last_player_count: None,
                last_map_name: None,
            },
            Some(PresenceStateView::InLauncher),
            true,
        )
    } else {
        (w, None, false)
    }
}

fn same_opt(a: &Option<String>, b: &Option<String>) -> (r: bool)
    ensures
        r == (opt_view(*a) == opt_view(*b)),
{
    match (a, b) {
        (Some(x), Some(y)) => crate::text::str_eq(x.as_str(), y.as_str()),
        (None, None) => true,
        _ => false,
    }
}

impl PresenceWatch {
    /// A watcher that has not seen the game run.
    pub fn new() -> (w: PresenceWatch)
        ensures
            w@ == (PresenceWatchView {
                was_game_running: false,
                last_player_count: None,
                last_map_name: None,
            }),
    {
        PresenceWatch { was_game_running: false, last_player_count: None, last_map_name: None }
    }

    /// One look of the watcher: takes whether the game runs, the session
    /// and the directory, where they are there, and gives what is to be
    /// shown, if anything new, and whether the game was closed.
    pub fn tick(
        &mut self,
        game_running: bool,
        session: Option<&GameSession>,
        servers: Option<&Vec<Server>>,
    ) -> (r: (Option<PresenceState>, bool))
        ensures
            (final(self)@, presence_view(r.0), r.1) == watch_step(
                old(self)@,
                game_running,
                match session {
                    Some(s) => Some(s@),
                    None => None,
                },
                match servers {
                    Some(l) => Some(server_views(l@)),
                    None => None,
                },
            ),
    {
        if game_running {
            self.was_game_running = true;
            let s = match session {
                None => {
                    return (None, false);
                },
                Some(s) => s,
            };
            let mut count: Option<i32> = None;
            let mut map: Option<String> = clone_opt(&s.map_name);
            match servers {
                Some(list) => {
                    match find_server_exact(list, s.server_name.as_str()) {
                        Some(i) => {
                            assert(server_views(list@)[i as int] == list@[i as int]@);
                            match &list[i].data {
                                Some(d) => {
                                    count = Some(d.players);
                                    map = Some(d.map_name.clone());
                                },
                                None => {},
                            }
                        },
                        None => {},
                    }
                },
                None => {},
            }
            let changed = match (count, self.last_player_count) {
                (Some(a), Some(b)) => a != b,
                (None, None) => false,
                _ => true,
            } || !same_opt(&map, &self.last_map_name);
            if changed {
                self.last_player_count = count;
                self.last_map_name = clone_opt(&map);
                let player_count: u32 = match count {
                    Some(c) => #[verifier::truncate]
                    (c as u32),
                    None => 0,
                };
                (
                    Some(
                        PresenceState::Playing {
                            server_name: s.server_name.clone(),
                            player_count,
                            map_name: map,
                        },
                    ),
                    false,
                )
            } else {
                (None, false)
            }
        } else if self.was_game_running {
            self.was_game_running = false;
            self.last_player_count = None;
            self.last_map_name = None;
            (Some(PresenceState::InLauncher), true)
        } else {
            (None, false)
        }
    }
}

} // verus!
