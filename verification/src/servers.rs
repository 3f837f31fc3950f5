//! The server directory: what is known of each game server, and how a server
//! is looked up by name.

use vstd::prelude::*;
use crate::text::{
    concat2, concat3, contains_str, first_equal, i64_to_decimal, lemma_first_equal,
    lemma_first_equal_is, lemma_first_equal_none, lowercase, position_of, replace_char, replaced,
    signed_decimal, split, split_on, str_eq, strip_prefix, to_lower, views, without_prefix,
};

verus! {

/// The status text of a server that can be joined.
pub open spec fn available_status() -> Seq<char> {
    "available"@
}

/// Live data of the round that a server is running.
#[derive(Debug, Clone)]
pub struct ServerData {
    pub round_id: i64,
    pub mode: String,
    pub map_name: String,
    pub gamestate: i32,
    pub players: i32,
}

/// One entry of the server directory.
#[derive(Debug, Clone)]
pub struct Server {
    pub name: String,
    pub url: String,
    pub status: String,
    pub data: Option<ServerData>,
    pub recommended_byond_version: Option<String>,
}

/// A fresh snapshot of the directory, as reported to the front end.
#[derive(Debug, Clone)]
pub struct ServerUpdateEvent {
    pub servers: Vec<Server>,
}

/// A failed refresh of the directory, as reported to the front end.
#[derive(Debug, Clone)]
pub struct ServerErrorEvent {
    pub error: String,
}

/// The view of an optional string.
pub open spec fn opt_view(o: Option<String>) -> Option<Seq<char>> {
    match o {
        Some(s) => Some(s@),
        None => None,
    }
}

/// A copy of an optional string.
pub fn clone_opt(o: &Option<String>) -> (r: Option<String>)
    ensures
        opt_view(r) == opt_view(*o),
{
    match o {
        Some(s) => Some(s.clone()),
        None => None,
    }
}

/// What the round data of a server says, as mathematical values.
pub struct ServerDataView {
    pub round_id: int,
    pub mode: Seq<char>,
    pub map_name: Seq<char>,
    pub gamestate: int,
    pub players: int,
}

/// What a directory entry says, as mathematical values.
pub struct ServerView {
    pub name: Seq<char>,
    pub url: Seq<char>,
    pub status: Seq<char>,
    pub data: Option<ServerDataView>,
    pub recommended_byond_version: Option<Seq<char>>,
}

impl View for ServerData {
    type V = ServerDataView;

    open spec fn view(&self) -> ServerDataView {
        ServerDataView {
            round_id: self.round_id as int,
            mode: self.mode@,
            map_name: self.map_name@,
            gamestate: self.gamestate as int,
            players: self.players as int,
        }
    }
}

impl View for Server {
    type V = ServerView;

    open spec fn view(&self) -> ServerView {
        ServerView {
            name: self.name@,
            url: self.url@,
            status: self.status@,
            data: match self.data {
                Some(d) => Some(d@),
                None => None,
            },
            recommended_byond_version: opt_view(self.recommended_byond_version),
        }
    }
}

/// The views of a list of servers.
pub open spec fn server_views(servers: Seq<Server>) -> Seq<ServerView> {
    servers.map_values(|s: Server| s@)
}

/// The names of a list of servers, in order.
pub open spec fn names_of(servers: Seq<ServerView>) -> Seq<Seq<char>> {
    servers.map_values(|s: ServerView| s.name)
}

/// The names of a list of servers in lower case, in order.
pub open spec fn folded_names_of(servers: Seq<ServerView>) -> Seq<Seq<char>> {
    servers.map_values(|s: ServerView| lowercase(s.name))
}

/// The form in which a requested server name is compared: `+` stands for a
/// space, and case does not count.
pub open spec fn folded_request(server_name: Seq<char>) -> Seq<char> {
    lowercase(replace_char(server_name, '+', ' '))
}

/// Position of the server that a requested name stands for: the first whose
/// name, case aside, is the request with each `+` read as a space.
pub open spec fn find_server_spec(servers: Seq<ServerView>, server_name: Seq<char>) -> Option<int> {
    first_equal(folded_names_of(servers), folded_request(server_name))
}

/// Position of the first server whose name is exactly `server_name`.
pub open spec fn find_exact_spec(servers: Seq<ServerView>, server_name: Seq<char>) -> Option<int> {
    first_equal(names_of(servers), server_name)
}

/// Looks a server up by a requested name, ignoring case and reading `+` as a
/// space. Gives the position of the first match.
pub fn find_server(servers: &Vec<Server>, server_name: &str) -> (r: Option<usize>)
    ensures
        match r {
            Some(i) => find_server_spec(server_views(servers@), server_name@) == Some(i as int)
                && i < servers.len(),
            None => find_server_spec(server_views(servers@), server_name@) is None,
        },
{
    let spaced = replaced(server_name, '+', ' ');
    let wanted = to_lower(spaced.as_str());
    let mut folded: Vec<String> = Vec::new();
    let mut i: usize = 0;
    while i < servers.len()
        invariant
            i <= servers.len(),
            views(folded@) == folded_names_of(server_views(servers@)).take(i as int),
        decreases servers.len() - i,
    {
        let ghost before = views(folded@);
        let low = to_lower(servers[i].name.as_str());
        folded.push(low);
        proof {
            assert(views(folded@) == before.push(low@));
            assert(folded_names_of(server_views(servers@)).take(i + 1) == folded_names_of(
                server_views(servers@),
            ).take(i as int).push(lowercase(servers@[i as int].name@)));
        }
        i += 1;
    }
    proof {
        let all = folded_names_of(server_views(servers@));
        assert(all.take(servers.len() as int) == all);
        crate::text::lemma_first_equal(all, wanted@);
    }
    position_of(&folded, wanted.as_str())
}

/// Looks a server up by its exact name. Gives the position of the first match.
pub fn find_server_exact(servers: &Vec<Server>, server_name: &str) -> (r: Option<usize>)
    ensures
        match r {
            Some(i) => find_exact_spec(server_views(servers@), server_name@) == Some(i as int)
                && i < servers.len(),
            None => find_exact_spec(server_views(servers@), server_name@) is None,
        },
{
    let mut names: Vec<String> = Vec::new();
    let mut i: usize = 0;
    while i < servers.len()
        invariant
            i <= servers.len(),
            views(names@) == names_of(server_views(servers@)).take(i as int),
        decreases servers.len() - i,
    {
        let ghost before = views(names@);
        let name = servers[i].name.clone();
        names.push(name);
        proof {
            assert(views(names@) == before.push(name@));
            assert(names_of(server_views(servers@)).take(i + 1) == names_of(
                server_views(servers@),
            ).take(i as int).push(servers@[i as int].name@));
        }
        i += 1;
    }
    proof {
        let all = names_of(server_views(servers@));
        assert(all.take(servers.len() as int) == all);
        crate::text::lemma_first_equal(all, server_name@);
    }
    position_of(&names, server_name)
}

/// The scheme that a server address may carry in front of `host:port`.
pub open spec fn url_scheme() -> Seq<char> {
    "byond://"@
}

/// The port of a server address: the address without a leading scheme is
/// cut at each `:`, and the second piece is the port. An address without a
/// `:` has none.
pub open spec fn port_of(url: Seq<char>) -> Option<Seq<char>> {
    let bare = match strip_prefix(url, url_scheme()) {
        Some(rest) => rest,
        None => url,
    };
    let pieces = split_on(bare, ':');
    if pieces.len() >= 2 {
        Some(pieces[1])
    } else {
        None
    }
}

/// Reads the port out of a server address such as `host:2025` or
/// `byond://host:2025`.
pub fn parse_server_url(url: &str) -> (r: Option<String>)
    ensures
        opt_view(r) == port_of(url@),
{
    let bare = match without_prefix(url, "byond://") {
        Some(rest) => rest,
        None => url.to_owned(),
    };
    let pieces = split(bare.as_str(), ':');
    if pieces.len() >= 2 {
        Some(pieces[1].clone())
    } else {
        None
    }
}

/// Whether a server can be joined: its status is exactly `available`.
pub fn is_available(server: &Server) -> (r: bool)
    ensures
        r == (server.status@ == available_status()),
{
    crate::text::str_eq(server.status.as_str(), "available")
}

/// What is remembered of a server from one look at the directory to the
/// next: whether it could be joined, and which round it was running.
#[derive(Debug, Clone, Copy)]
pub struct PreviousServerState {
    pub was_online: bool,
    pub round_id: Option<i64>,
}

/// A notice for the user: a title and a body.
#[derive(Debug)]
pub struct Notification {
    pub title: String,
    pub body: String,
}

/// Whether a directory entry can be joined.
pub open spec fn is_online(server: ServerView) -> bool {
    server.status == available_status()
}

/// The round that a directory entry is running, if it says.
pub open spec fn round_of(server: ServerView) -> Option<int> {
    match server.data {
        Some(d) => Some(d.round_id),
        None => None,
    }
}

/// What to remember of a directory entry.
pub open spec fn remembered(server: ServerView) -> (bool, Option<int>) {
    (is_online(server), round_of(server))
}

/// The notice that a fresh directory entry calls for, given what was
/// remembered of the server: one that says that the server is online where
/// it can be joined and could not before; one that says that it has
/// restarted where it could be joined before and runs a later round than
/// was remembered; none otherwise. A server that is seen for the first time
/// calls for none.
pub open spec fn notice_for(server: ServerView, previous: Option<(bool, Option<int>)>) -> Option<
    (Seq<char>, Seq<char>),
> {
    match previous {
        None => None,
        Some((was_online, last_round)) => if is_online(server) && !was_online {
            Some((server.name + " is now online"@, "The server is available to join."@))
        } else if is_online(server) && server.data is Some && last_round is Some
            && server.data->0.round_id > last_round->0 {
            Some(
                (
                    server.name + " has restarted"@,
                    "Round #"@ + signed_decimal(server.data->0.round_id) + " - "@
                        + server.data->0.map_name,
                ),
            )
        } else {
            None
        },
    }
}

/// The view of what is remembered of a server.
pub open spec fn previous_view(p: Option<PreviousServerState>) -> Option<(bool, Option<int>)> {
    match p {
        Some(s) => Some(
            (
                s.was_online,
                match s.round_id {
                    Some(r) => Some(r as int),
                    None => None,
                },
            ),
        ),
        None => None,
    }
}

/// What to remember of a directory entry until the next look.
pub fn remember(server: &Server) -> (p: PreviousServerState)
    ensures
        previous_view(Some(p)) == Some(remembered(server@)),
{
    PreviousServerState {
        was_online: is_available(server),
        round_id: match &server.data {
            Some(d) => Some(d.round_id),
            None => None,
        },
    }
}

/// Decides whether a fresh directory entry calls for a notice, given what
/// was remembered of the server.
pub fn notification_for(server: &Server, previous: Option<PreviousServerState>) -> (n: Option<
    Notification,
>)
    ensures
        match n {
            Some(notice) => notice_for(server@, previous_view(previous)) == Some(
                (notice.title@, notice.body@),
            ),
            None => notice_for(server@, previous_view(previous)) is None,
        },
{
    let prev = match previous {
        None => {
            return None;
        },
        Some(prev) => prev,
    };
    let online = is_available(server);
    if online && !prev.was_online {
        return Some(
            Notification {
                title: concat2(server.name.as_str(), " is now online"),
                body: "The server is available to join.".to_owned(),
            },
        );
    }
    if online {
        match (&server.data, prev.round_id) {
            (Some(data), Some(last)) => {
                if data.round_id > last {
                    let round = i64_to_decimal(data.round_id);
                    let mut body = concat3("Round #", round.as_str(), " - ");
                    body.append(data.map_name.as_str());
                    return Some(
                        Notification {
                            title: concat2(server.name.as_str(), " has restarted"),
                            body,
                        },
                    );
                }
            },
            _ => {},
        }
    }
    None
}

/// What is remembered of the servers, by name. A name is looked up at the
/// first place where it stands.
#[derive(Debug)]
pub struct ServerHistory {
    pub entries: Vec<(String, PreviousServerState)>,
}

/// What is remembered of the servers as mathematical values.
pub type HistoryView = Seq<(Seq<char>, (bool, Option<int>))>;

impl View for ServerHistory {
    type V = HistoryView;

    open spec fn view(&self) -> HistoryView {
        self.entries@.map_values(
            |e: (String, PreviousServerState)| (e.0@, previous_view(Some(e.1))->0),
        )
    }
}

/// The names that something is remembered of, in order.
pub open spec fn history_names(h: HistoryView) -> Seq<Seq<char>> {
    h.map_values(|e: (Seq<char>, (bool, Option<int>))| e.0)
}

/// What is remembered of the server with the given name, if anything.
pub open spec fn recalled(h: HistoryView, name: Seq<char>) -> Option<(bool, Option<int>)> {
    match first_equal(history_names(h), name) {
        Some(i) => Some(h[i].1),
        None => None,
    }
}

/// The history after something has been noted of a server: it takes the
/// place of what was remembered of that server, or is added at the end.
pub open spec fn noted(h: HistoryView, name: Seq<char>, state: (bool, Option<int>)) -> HistoryView {
    match first_equal(history_names(h), name) {
        Some(i) => h.update(i, (name, state)),
        None => h.push((name, state)),
    }
}

/// What is noted of a server is what is remembered of it afterwards, and
/// what is remembered of the other servers is as before.
pub proof fn law_noted_is_recalled(
    h: HistoryView,
    name: Seq<char>,
    state: (bool, Option<int>),
    other: Seq<char>,
)
    ensures
        recalled(noted(h, name, state), other) == (if other == name {
            Some(state)
        } else {
            recalled(h, other)
        }),
{
    let names = history_names(h);
    let after = noted(h, name, state);
    let after_names = history_names(after);
    lemma_first_equal(names, name);
    lemma_first_equal(names, other);
    match first_equal(names, name) {
        Some(i) => {
            assert(after_names =~= names);
            if other != name {
                lemma_first_equal(after_names, other);
            }
        },
        None => {
            assert(after_names =~= names.push(name));
            if other == name {
                lemma_first_equal_is(after_names, name, names.len() as int);
            } else {
                match first_equal(names, other) {
                    Some(j) => {
                        lemma_first_equal_is(after_names, other, j);
                    },
                    None => {
                        lemma_first_equal_none(after_names, other);
                    },
                }
            }
        },
    }
}

/// One look at the directory, taken in up to its `n`-th entry: the history
/// afterwards, and the notices called for, in the order of the entries. A
/// server that is not watched is passed over. Of a watched server, the
/// notice goes by what was remembered, and what the entry says is noted.
pub open spec fn scanned(
    h: HistoryView,
    watched: Seq<Seq<char>>,
    servers: Seq<ServerView>,
    n: int,
) -> (HistoryView, Seq<(Seq<char>, Seq<char>)>)
    decreases n,
{
    if n <= 0 {
        (h, Seq::<(Seq<char>, Seq<char>)>::empty())
    } else {
        let before = scanned(h, watched, servers, n - 1);
        let server = servers[n - 1];
        if !watched.contains(server.name) {
            before
        } else {
            (
                noted(before.0, server.name, remembered(server)),
                match notice_for(server, recalled(before.0, server.name)) {
                    Some(notice) => before.1.push(notice),
                    None => before.1,
                },
            )
        }
    }
}

/// The views of a list of notices.
pub open spec fn notice_views(notices: Seq<Notification>) -> Seq<(Seq<char>, Seq<char>)> {
    notices.map_values(|n: Notification| (n.title@, n.body@))
}

impl ServerHistory {
    /// A history in which nothing is remembered.
    pub fn new() -> (h: ServerHistory)
        ensures
            h@ == Seq::<(Seq<char>, (bool, Option<int>))>::empty(),
    {
        let h = ServerHistory { entries: Vec::new() };
        assert(h@ =~= Seq::<(Seq<char>, (bool, Option<int>))>::empty());
        h
    }

    fn position(&self, name: &str) -> (r: Option<usize>)
        ensures
            match r {
                Some(i) => first_equal(history_names(self@), name@) == Some(i as int) && i
                    < self.entries.len(),
                None => first_equal(history_names(self@), name@) is None,
            },
    {
        let ghost names = history_names(self@);
        let mut i: usize = 0;
        while i < self.entries.len()
            invariant
                i <= self.entries.len(),
                names == history_names(self@),
                forall|j: int| 0 <= j < i ==> names[j] != name@,
            decreases self.entries.len() - i,
        {
            if str_eq(self.entries[i].0.as_str(), name) {
                proof {
                    assert(names[i as int] == name@);
                    lemma_first_equal_is(names, name@, i as int);
                }
                return Some(i);
            }
            i += 1;
        }
        proof {
            lemma_first_equal_none(names, name@);
        }
        None
    }

    /// What is remembered of the server with the given name, if anything.
    pub fn get(&self, name: &str) -> (r: Option<PreviousServerState>)
        ensures
            previous_view(r) == recalled(self@, name@),
    {
        match self.position(name) {
            Some(i) => Some(self.entries[i].1),
            None => None,
        }
    }

    /// Notes the state of a server, in place of what was remembered of it.
    pub fn set(&mut self, name: &str, state: PreviousServerState)
        ensures
            final(self)@ == noted(old(self)@, name@, previous_view(Some(state))->0),
    {
        let ghost before = self@;
        match self.position(name) {
            Some(i) => {
                self.entries.set(i, (name.to_owned(), state));
                assert(self@ =~= before.update(i as int, (name@, previous_view(Some(state))->0)));
            },
            None => {
                self.entries.push((name.to_owned(), state));
                assert(self@ =~= before.push((name@, previous_view(Some(state))->0)));
            },
        }
    }
}

/// Takes in a fresh look at the directory: decides which notices it calls
/// for, and notes the state of every watched server in the history.
pub fn check_and_send_notifications(
    history: &mut ServerHistory,
    watched: &Vec<String>,
    new_servers: &Vec<Server>,
) -> (notices: Vec<Notification>)
    ensures
        (final(history)@, notice_views(notices@)) == scanned(
            old(history)@,
            views(watched@),
            server_views(new_servers@),
            new_servers.len() as int,
        ),
{
    let mut notices: Vec<Notification> = Vec::new();
    let ghost start = history@;
    assert(notice_views(notices@) == Seq::<(Seq<char>, Seq<char>)>::empty());
    let mut i: usize = 0;
    while i < new_servers.len()
        invariant
            i <= new_servers.len(),
            (history@, notice_views(notices@)) == scanned(
                start,
                views(watched@),
                server_views(new_servers@),
                i as int,
            ),
        decreases new_servers.len() - i,
    {
        let server = &new_servers[i];
        assert(server_views(new_servers@)[i as int] == server@);
        if contains_str(watched, server.name.as_str()) {
            let previous = history.get(server.name.as_str());
            let current = remember(server);
            match notification_for(server, previous) {
                Some(notice) => {
                    let ghost before = notice_views(notices@);
                    let ghost nv = (notice.title@, notice.body@);
                    notices.push(notice);
                    assert(notice_views(notices@) == before.push(nv));
                },
                None => {},
            }
            history.set(server.name.as_str(), current);
        }
        i += 1;
    }
    notices
}

/// The history that the first look at the directory leaves: the state of
/// every server is noted, watched or not, and no notice is called for.
pub fn init_servers(servers: &Vec<Server>) -> (history: ServerHistory)
    ensures
        history@ == first_look(server_views(servers@), servers.len() as int),
{
    let mut history = ServerHistory::new();
    let mut i: usize = 0;
    while i < servers.len()
        invariant
            i <= servers.len(),
            history@ == first_look(server_views(servers@), i as int),
        decreases servers.len() - i,
    {
        let server = &servers[i];
        assert(server_views(servers@)[i as int] == server@);
        let current = remember(server);
        history.set(server.name.as_str(), current);
        i += 1;
    }
    history
}

/// What is remembered after the first look at the directory, taken in up to
/// its `n`-th entry.
pub open spec fn first_look(servers: Seq<ServerView>, n: int) -> HistoryView
    decreases n,
{
    if n <= 0 {
        Seq::<(Seq<char>, (bool, Option<int>))>::empty()
    } else {
        noted(first_look(servers, n - 1), servers[n - 1].name, remembered(servers[n - 1]))
    }
}

} // verus!
