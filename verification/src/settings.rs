//! What the user has configured: how to authenticate, the look of the
//! launcher, and which servers to be notified about.

use vstd::prelude::*;
use crate::text::{
    contains_str, copy_without, lemma_without, trim, trimmed, views, without,
};

verus! {

/// How credentials for a connection are obtained.
#[derive(Debug, Clone, Copy, PartialEq, Eq, Structural)]
pub enum AuthMode {
    /// A first-party token, cached after a login.
    CmSs13,
    /// No token: the game's own pager vouches for the user.
    Byond,
    /// A ticket exchanged through the Steam identity provider.
    Steam,
}

/// The look of the launcher.
#[derive(Debug, Clone, Copy, PartialEq, Eq, Structural)]
pub enum Theme {
    Default,
    Ntos,
}

/// The settings of the launcher.
#[derive(Debug, Clone)]
pub struct AppSettings {
    pub auth_mode: AuthMode,
    pub theme: Theme,
    /// Names of the servers to be notified about; none occurs twice.
    pub notification_servers: Vec<String>,
    pub fullscreen_overlay: bool,
}

/// The default for a flag that is on unless switched off.
pub fn default_true() -> (r: bool)
    ensures
        r,
{
    true
}

/// The list of servers to be notified about after notifications for one
/// server were switched on or off: the server is listed once where they
/// were switched on and not at all where they were switched off; the others
/// are listed as before.
pub open spec fn toggled(list: Seq<Seq<char>>, server_name: Seq<char>, enabled: bool) -> Seq<
    Seq<char>,
> {
    if enabled {
        without(list, server_name).push(server_name)
    } else {
        without(list, server_name)
    }
}

/// Switching notifications for a server changes what is listed for that
/// server and for no other, and a list in which no server occurred twice
/// stays so.
pub proof fn law_toggle(list: Seq<Seq<char>>, server_name: Seq<char>, enabled: bool)
    ensures
        forall|name: Seq<char>|
            #[trigger] toggled(list, server_name, enabled).contains(name) <==> (if name
                == server_name {
                enabled
            } else {
                list.contains(name)
            }),
        list.no_duplicates() ==> toggled(list, server_name, enabled).no_duplicates(),
{
    lemma_without(list, server_name);
    let kept = without(list, server_name);
    let now = toggled(list, server_name, enabled);
    assert forall|name: Seq<char>| #[trigger]
        now.contains(name) <==> (if name == server_name {
            enabled
        } else {
            list.contains(name)
        }) by {
        if enabled {
            assert(now[now.len() - 1] == server_name);
            if kept.contains(name) {
                let k = choose|k: int| 0 <= k < kept.len() && kept[k] == name;
                assert(now[k] == name);
            }
            if now.contains(name) {
                let k = choose|k: int| 0 <= k < now.len() && now[k] == name;
                if k < kept.len() {
                    assert(kept[k] == name);
                    assert(kept.contains(name));
                }
            }
        }
    }
    if list.no_duplicates() && enabled {
        assert forall|i: int, j: int|
            0 <= i < now.len() && 0 <= j < now.len() && i != j implies now[i] != now[j] by {
            if i < kept.len() && j < kept.len() {
                assert(kept[i] != kept[j]);
            } else {
                let k = if i < kept.len() {
                    i
                } else {
                    j
                };
                assert(kept.contains(kept[k]));
            }
        }
    }
}

/// The settings that a settings file gives. The defaults stand in where
/// there is no file or it cannot be read, where it holds nothing but white
/// space, and where what it holds could not be parsed.
pub fn load_settings(contents: Option<&str>, parsed: Option<AppSettings>, default_mode: AuthMode)
    -> (s: AppSettings)
    ensures
        match contents {
            Some(text) if trimmed(text@).len() > 0 && parsed is Some => s == parsed->0,
            _ => s.auth_mode == default_mode && s.theme == Theme::Default
                && s.notification_servers@.len() == 0 && s.fullscreen_overlay,
        },
{
    match contents {
        None => AppSettings::initial(default_mode),
        Some(text) => {
            if trim(text).as_str().unicode_len() == 0 {
                AppSettings::initial(default_mode)
            } else {
                match parsed {
                    Some(settings) => settings,
                    None => AppSettings::initial(default_mode),
                }
            }
        },
    }
}

/// The way to authenticate that a fresh installation starts with: Steam in
/// a build for Steam, the first-party token otherwise.
pub fn default_auth_mode(steam_build: bool) -> (mode: AuthMode)
    ensures
        mode == (if steam_build {
            AuthMode::Steam
        } else {
            AuthMode::CmSs13
        }),
{
    if steam_build {
        AuthMode::Steam
    } else {
        AuthMode::CmSs13
    }
}

impl AppSettings {
    /// No server name is listed twice.
    pub open spec fn wf(&self) -> bool {
        views(self.notification_servers@).no_duplicates()
    }

    /// Whether notifications for `name` are switched on.
    pub open spec fn notifies(&self, name: Seq<char>) -> bool {
        views(self.notification_servers@).contains(name)
    }

    /// The settings of a fresh installation: the given way to authenticate
    /// (Steam in a build for Steam, the first-party token otherwise), the
    /// default theme, no notifications, the overlay switched on.
    pub fn initial(auth_mode: AuthMode) -> (s: AppSettings)
        ensures
            s.wf(),
            s.auth_mode == auth_mode,
            s.theme == Theme::Default,
            s.notification_servers@.len() == 0,
            s.fullscreen_overlay,
    {
        AppSettings {
            auth_mode,
            theme: Theme::Default,
            notification_servers: Vec::new(),
            fullscreen_overlay: default_true(),
        }
    }

    /// Tests whether notifications for `name` are switched on.
    pub fn has_notification(&self, name: &str) -> (r: bool)
        ensures
            r == self.notifies(name@),
    {
        contains_str(&self.notification_servers, name)
    }

    /// Switches notifications for one server on or off.
    pub fn toggle_server_notifications(&mut self, server_name: String, enabled: bool)
        ensures
            views(final(self).notification_servers@) == toggled(
                views(old(self).notification_servers@),
                server_name@,
                enabled,
            ),
            final(self).auth_mode == old(self).auth_mode,
            final(self).theme == old(self).theme,
            final(self).fullscreen_overlay == old(self).fullscreen_overlay,
            old(self).wf() ==> final(self).wf(),
    {
        proof {
            law_toggle(views(self.notification_servers@), server_name@, enabled);
        }
        let mut kept = copy_without(&self.notification_servers, server_name.as_str());
        if enabled {
            let ghost before = views(kept@);
            kept.push(server_name);
            assert(views(kept@) == before.push(server_name@));
        }
        self.notification_servers = kept;
    }

    /// Sets the way to authenticate.
    pub fn set_auth_mode(&mut self, mode: AuthMode)
        ensures
            final(self).auth_mode == mode,
            final(self).theme == old(self).theme,
            final(self).notification_servers == old(self).notification_servers,
            final(self).fullscreen_overlay == old(self).fullscreen_overlay,
    {
        self.auth_mode = mode;
    }

    /// Sets the theme.
    pub fn set_theme(&mut self, theme: Theme)
        ensures
            final(self).theme == theme,
            final(self).auth_mode == old(self).auth_mode,
            final(self).notification_servers == old(self).notification_servers,
            final(self).fullscreen_overlay == old(self).fullscreen_overlay,
    {
        self.theme = theme;
    }

    /// Switches the fullscreen overlay on or off.
    pub fn set_fullscreen_overlay(&mut self, enabled: bool)
        ensures
            final(self).fullscreen_overlay == enabled,
            final(self).auth_mode == old(self).auth_mode,
            final(self).theme == old(self).theme,
            final(self).notification_servers == old(self).notification_servers,
    {
        self.fullscreen_overlay = enabled;
    }
}

} // verus!
