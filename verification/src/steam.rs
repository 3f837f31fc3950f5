//! What the launcher needs to know of the Steam identity provider.

use vstd::prelude::*;
use crate::servers::opt_view;
use crate::text::{concat2, decimal, parse_u32, to_u32, u64_to_decimal};

verus! {

/// The application id under which the launcher is registered.
pub const DEFAULT_STEAM_ID: u32 = 4313790;

/// What an attempt to authenticate through Steam came to.
#[derive(Debug, Clone)]
pub struct SteamAuthResult {
    pub success: bool,
    pub access_token: Option<String>,
    pub requires_linking: bool,
    pub linking_url: Option<String>,
    pub error: Option<String>,
}

/// The application id: the one configured at build time where there is one,
/// the registered default otherwise. A configured id must be a number.
pub fn get_steam_app_id(configured: Option<&str>) -> (id: u32)
    requires
        configured matches Some(text) ==> parse_u32(text@) is Some,
    ensures
        id == match configured {
            Some(text) => parse_u32(text@)->0,
            None => DEFAULT_STEAM_ID,
        },
{
    match configured {
        Some(text) => match to_u32(text) {
            Some(id) => id,
            None => DEFAULT_STEAM_ID,
        },
        None => DEFAULT_STEAM_ID,
    }
}

/// What one answer of the Steam identity provider is, as mathematical values.
pub struct SteamAuthView {
    pub success: bool,
    pub access_token: Option<Seq<char>>,
    pub requires_linking: bool,
    pub linking_url: Option<Seq<char>>,
    pub error: Option<Seq<char>>,
}

impl View for SteamAuthResult {
    type V = SteamAuthView;

    open spec fn view(&self) -> SteamAuthView {
        SteamAuthView {
            success: self.success,
            access_token: opt_view(self.access_token),
            requires_linking: self.requires_linking,
            linking_url: opt_view(self.linking_url),
            error: opt_view(self.error),
        }
    }
}

/// The view of what asking Steam came to: `None` where Steam is not there at
/// all, the provider's failure, or its answer.
pub open spec fn steam_outcome_view(o: Option<Result<SteamAuthResult, String>>) -> Option<
    Result<SteamAuthView, Seq<char>>,
> {
    match o {
        None => None,
        Some(Ok(r)) => Some(Ok(r@)),
        Some(Err(e)) => Some(Err(e@)),
    }
}

/// The name of the application: the one configured at build time where
/// there is one, the given default otherwise.
pub fn get_steam_app_name(configured: Option<&str>, default_name: &str) -> (name: String)
    ensures
        name@ == match configured {
            Some(text) => text@,
            None => default_name@,
        },
{
    match configured {
        Some(text) => text.to_owned(),
        None => default_name.to_owned(),
    }
}

/// The views of a list of keys and values.
pub open spec fn key_value_views(pairs: Seq<(String, String)>) -> Seq<(Seq<char>, Seq<char>)> {
    pairs.map_values(|p: (String, String)| (p.0@, p.1@))
}

/// What is shown on Steam of a user who plays on a server, as keys and
/// values in the order in which they are set.
pub open spec fn playing_status(server_name: Seq<char>, player_count: nat) -> Seq<
    (Seq<char>, Seq<char>),
> {
    seq![
        ("status"@, "Playing on "@ + server_name),
        ("connect"@, server_name),
        ("players"@, decimal(player_count)),
        ("name"@, server_name),
        ("steam_display"@, "#Status_Playing"@),
        ("steam_player_group"@, server_name),
        ("steam_player_group_size"@, decimal(player_count)),
    ]
}

/// What is shown on Steam of a user who is in the launcher; set after all
/// that was shown before has been cleared.
pub open spec fn launcher_status() -> Seq<(Seq<char>, Seq<char>)> {
    seq![("status"@, "In the Launcher"@), ("steam_display"@, "#Status_Launcher"@)]
}

fn pair(key: &str, value: String) -> (p: (String, String))
    ensures
        p.0@ == key@,
        p.1@ == value@,
{
    (key.to_owned(), value)
}

/// The keys and values to set on Steam for a user who plays on a server.
pub fn set_playing_status(server_name: &str, player_count: u32) -> (pairs: Vec<(String, String)>)
    ensures
        key_value_views(pairs@) == playing_status(server_name@, player_count as nat),
{
    let pairs = vec![
        pair("status", concat2("Playing on ", server_name)),
        pair("connect", server_name.to_owned()),
        pair("players", u64_to_decimal(player_count as u64)),
        pair("name", server_name.to_owned()),
        pair("steam_display", "#Status_Playing".to_owned()),
        pair("steam_player_group", server_name.to_owned()),
        pair("steam_player_group_size", u64_to_decimal(player_count as u64)),
    ];
    assert(key_value_views(pairs@) =~= playing_status(server_name@, player_count as nat));
    pairs
}

/// The keys and values to set on Steam, once all is cleared, for a user who
/// is in the launcher.
pub fn set_launcher_status() -> (pairs: Vec<(String, String)>)
    ensures
        key_value_views(pairs@) == launcher_status(),
{
    let pairs = vec![
        pair("status", "In the Launcher".to_owned()),
        pair("steam_display", "#Status_Launcher".to_owned()),
    ];
    assert(key_value_views(pairs@) =~= launcher_status());
    pairs
}

/// How the wait for a ticket of Steam ended.
#[derive(Debug)]
pub enum TicketWait {
    /// No answer came in time.
    TimedOut,
    /// The channel on which the answer was to come was closed.
    ChannelClosed,
    /// Steam answered: whether it made a ticket, and the ticket.
    Answered { ok: bool, ticket: Vec<u8> },
}

/// The ticket that the wait gave, or why there is none.
pub fn get_auth_session_ticket(wait: TicketWait) -> (r: Result<Vec<u8>, String>)
    ensures
        match wait {
            TicketWait::TimedOut => r matches Err(m) && m@
                == "Timeout waiting for Steam auth ticket callback"@,
            TicketWait::ChannelClosed => r matches Err(m) && m@
                == "Steam auth ticket channel closed unexpectedly"@,
            TicketWait::Answered { ok, ticket } => if ok {
                r matches Ok(t) && t@ == ticket@
            } else {
                r matches Err(m) && m@ == "Steam failed to generate auth ticket"@
            },
        },
{
    match wait {
        TicketWait::TimedOut => Err("Timeout waiting for Steam auth ticket callback".to_owned()),
        TicketWait::ChannelClosed => Err(
            "Steam auth ticket channel closed unexpectedly".to_owned(),
        ),
        TicketWait::Answered { ok, ticket } => {
            if ok {
                Ok(ticket)
            } else {
                Err("Steam failed to generate auth ticket".to_owned())
            }
        },
    }
}

} // verus!
