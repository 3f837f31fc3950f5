//! Opening an address in the user's browser, preferring the opener of the
//! system over one that was bundled with the launcher.

use vstd::prelude::*;
use crate::byond::opt_str_view;
use crate::servers::opt_view;
use crate::text::{
    contains_seq, has_prefix, has_substring, starts_with, trim, trimmed,
};

verus! {

/// Whether a path names a program of the system: it lies below `/usr/`,
/// `/bin/` or `/sbin/`, and not inside a bundle of the launcher.
pub open spec fn system_path(path: Seq<char>) -> bool {
    &&& starts_with(path, "/usr/"@) || starts_with(path, "/bin/"@) || starts_with(path, "/sbin/"@)
    &&& !contains_seq(path, "CM-SS13"@)
}

/// Tests whether a path names a program of the system.
pub fn is_system_path(path: &str) -> (r: bool)
    ensures
        r == system_path(path@),
{
    let is_system = has_prefix(path, "/usr/") || has_prefix(path, "/bin/") || has_prefix(
        path,
        "/sbin/",
    );
    let is_bundled = has_substring(path, "CM-SS13");
    is_system && !is_bundled
}

/// The opener to use, if any. The browser that the user has set is taken
/// where it is a program of the system. Else the opener is looked for at
/// the usual places of the system, in this order: `/usr/bin`,
/// `/usr/local/bin`, `/bin`. Else the opener that the search path leads to
/// is taken, where it is a program of the system.
pub open spec fn xdg_open_choice(
    browser: Option<Seq<char>>,
    in_usr_bin: bool,
    in_usr_local_bin: bool,
    in_bin: bool,
    found_on_path: Option<Seq<char>>,
) -> Option<Seq<char>> {
    if browser is Some && browser->0.len() > 0 && system_path(browser->0) {
        browser
    } else if in_usr_bin {
        Some("/usr/bin/xdg-open"@)
    } else if in_usr_local_bin {
        Some("/usr/local/bin/xdg-open"@)
    } else if in_bin {
        Some("/bin/xdg-open"@)
    } else if found_on_path is Some && trimmed(found_on_path->0).len() > 0 && system_path(
        trimmed(found_on_path->0),
    ) {
        Some(trimmed(found_on_path->0))
    } else {
        None
    }
}

/// Picks the opener to use. `browser` is what the user has set as browser,
/// if anything; the three flags say whether the opener is there at the
/// usual places; `found_on_path` is what a search of the path printed, where
/// it found the opener.
pub fn find_xdg_open(
    browser: Option<&str>,
    in_usr_bin: bool,
    in_usr_local_bin: bool,
    in_bin: bool,
    found_on_path: Option<&str>,
) -> (r: Option<String>)
    ensures
        opt_view(r) == xdg_open_choice(
            opt_str_view(browser),
            in_usr_bin,
            in_usr_local_bin,
            in_bin,
            opt_str_view(found_on_path),
        ),
{
    match browser {
        Some(b) => {
            if b.unicode_len() > 0 && is_system_path(b) {
                return Some(b.to_owned());
            }
        },
        None => {},
    }
    if in_usr_bin {
        return Some("/usr/bin/xdg-open".to_owned());
    }
    if in_usr_local_bin {
        return Some("/usr/local/bin/xdg-open".to_owned());
    }
    if in_bin {
        return Some("/bin/xdg-open".to_owned());
    }
    match found_on_path {
        Some(output) => {
            let path = trim(output);
            if path.as_str().unicode_len() > 0 && is_system_path(path.as_str()) {
                return Some(path);
            }
        },
        None => {},
    }
    None
}

/// How an address is opened.
#[derive(Debug)]
pub struct OpenPlan {
    /// The opener to start with the address as its argument, if one was
    /// picked. Where none was, or it cannot be started, the opener that the
    /// platform offers by default is used.
    pub opener: Option<String>,
    pub url: String,
}

/// Plans the opening of an address in the user's browser.
pub fn open(url: &str, opener: Option<String>) -> (plan: OpenPlan)
    ensures
        plan.url@ == url@,
        plan.opener == opener,
{
    OpenPlan { opener, url: url.to_owned() }
}

} // verus!
