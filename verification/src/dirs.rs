//! Where the config file and the runtime directory are, from the
//! environment's values.
use vstd::prelude::*;
use vstd::string::*;
use crate::text::{to_chars, parse_unsigned, parse_unsigned_spec, decimal, decimal_chars, string_from_chars};

verus! {

/// The text of an optional string slice.
pub open spec fn str_opt_view(o: Option<&str>) -> Option<Seq<char>> {
    match o {
        Some(s) => Some(s@),
        None => None,
    }
}

/// The config file: under `$XDG_CONFIG_HOME` when it is set and not empty,
/// else under `$HOME/.config`; none without either.
pub open spec fn config_path_spec(xdg_config_home: Option<Seq<char>>, home: Option<Seq<char>>) -> Option<
    Seq<char>,
> {
    match xdg_config_home {
        Some(x) if x.len() > 0 => Some(x + "/ambientd/config"@),
        _ => match home {
            Some(h) => Some(h + "/.config/ambientd/config"@),
            None => None,
        },
    }
}

/// The config file's path, from `$XDG_CONFIG_HOME` and `$HOME` (each absent
/// when unset or not valid Unicode).
pub fn config_path(xdg_config_home: Option<&str>, home: Option<&str>) -> (r: Option<String>)
    ensures
        match r {
            Some(p) => config_path_spec(str_opt_view(xdg_config_home), str_opt_view(home))
                == Some(p@),
            None => config_path_spec(str_opt_view(xdg_config_home), str_opt_view(home)) is None,
        },
{
    if let Some(x) = xdg_config_home {
        if !x.is_empty() {
            return Some(String::from_str(x).concat("/ambientd/config"));
        }
    }
    match home {
        Some(h) => Some(String::from_str(h).concat("/.config/ambientd/config")),
        None => None,
    }
}

/// The user id to use: `$UID` when it is a `u32`, else the one the system
/// reports.
pub open spec fn user_id(uid_var: Option<Seq<char>>, uid: Option<u32>) -> Option<nat> {
    let from_var = match uid_var {
        Some(v) => parse_unsigned_spec(v, u32::MAX as nat),
        None => None,
    };
    match from_var {
        Some(n) => Some(n),
        None => match uid {
            Some(u) => Some(u as nat),
            None => None,
        },
    }
}

/// The runtime directory: `$XDG_RUNTIME_DIR` when it is set and not empty,
/// else `/run/user/<uid>`; none without a user id.
pub open spec fn runtime_dir_spec(
    xdg_runtime_dir: Option<Seq<char>>,
    uid_var: Option<Seq<char>>,
    uid: Option<u32>,
) -> Option<Seq<char>> {
    match xdg_runtime_dir {
        Some(d) if d.len() > 0 => Some(d),
        _ => match user_id(uid_var, uid) {
            Some(n) => Some("/run/user/"@ + decimal(n)),
            None => None,
        },
    }
}

/// The runtime directory, from `$XDG_RUNTIME_DIR`, `$UID` and the user id
/// that the system reports (`getuid`, where there is one).
pub fn runtime_dir(xdg_runtime_dir: Option<&str>, uid_var: Option<&str>, uid: Option<u32>) -> (r:
    Option<String>)
    ensures
        match r {
            Some(p) => runtime_dir_spec(str_opt_view(xdg_runtime_dir), str_opt_view(uid_var), uid)
                == Some(p@),
            None => runtime_dir_spec(str_opt_view(xdg_runtime_dir), str_opt_view(uid_var), uid) is None,
        },
{
    if let Some(d) = xdg_runtime_dir {
        if !d.is_empty() {
            return Some(String::from_str(d));
        }
    }
    let from_var = match uid_var {
        Some(v) => {
            let c = to_chars(v);
            parse_unsigned(c.as_slice(), u32::MAX as u64)
        },
        None => None,
    };
    let id: Option<u64> = match from_var {
        Some(n) => Some(n),
        None => match uid {
            Some(u) => Some(u as u64),
            None => None,
        },
    };
    match id {
        Some(n) => {
            let digits = decimal_chars(n);
            Some(String::from_str("/run/user/").concat(string_from_chars(digits.as_slice()).as_str()))
        },
        None => None,
    }
}

} // verus!
