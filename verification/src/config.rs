//! User configuration: where each pane starts, with `~` expanded against the
//! home directory, and where the configuration file lives.
use vstd::prelude::*;
use crate::text::{chars_of, push_char, push_str};

verus! {

/// Settings read from the configuration file; every key is optional.
#[derive(Debug)]
pub struct Config {
    /// Host pane start folder; may begin with `~`.
    pub default_host_dir: Option<String>,
    /// Device folder to open after connecting, e.g. "/Download".
    pub default_device_dir: Option<String>,
}

impl Default for Config {
    fn default() -> (c: Self)
        ensures
            c.default_host_dir is None,
            c.default_device_dir is None,
    {
        Config { default_host_dir: None, default_device_dir: None }
    }
}

/// A path is absolute when it starts at the root.
pub open spec fn is_absolute(p: Seq<char>) -> bool {
    p.len() > 0 && p[0] == '/'
}

/// `base` joined with `rest` as a path join does: an absolute `rest` replaces
/// `base`; otherwise a separator goes between them unless `base` is empty or
/// already ends in one.
pub open spec fn joined_path(base: Seq<char>, rest: Seq<char>) -> Seq<char> {
    if is_absolute(rest) {
        rest
    } else if base.len() == 0 || base.last() == '/' {
        base + rest
    } else {
        base + seq!['/'] + rest
    }
}

/// `path` with a leading "~/" or a bare "~" replaced by the home directory,
/// when one is known; any other path unchanged.
pub open spec fn tilde_expanded(path: Seq<char>, home: Option<Seq<char>>) -> Seq<char> {
    match home {
        Some(h) => if path.len() >= 2 && path[0] == '~' && path[1] == '/' {
            joined_path(h, path.skip(2))
        } else if path == seq!['~'] {
            h
        } else {
            path
        },
        None => path,
    }
}

/// The view of an optional string.
pub open spec fn opt_view(s: Option<&str>) -> Option<Seq<char>> {
    match s {
        Some(t) => Some(t@),
        None => None,
    }
}

/// The configuration file: under `$XDG_CONFIG_HOME` when that is absolute,
/// otherwise under `~/.config`; none without either.
pub open spec fn config_file(xdg: Option<Seq<char>>, home: Option<Seq<char>>) -> Option<Seq<char>> {
    if xdg is Some && is_absolute(xdg->0) {
        Some(joined_path(joined_path(xdg->0, "mtp-tui"@), "config.toml"@))
    } else {
        match home {
            Some(h) => Some(
                joined_path(joined_path(joined_path(h, ".config"@), "mtp-tui"@), "config.toml"@),
            ),
            None => None,
        }
    }
}

/// A `String` holding `v` from index `start` on.
fn string_from(v: &Vec<char>, start: usize) -> (s: String)
    requires
        start <= v@.len(),
    ensures
        s@ == v@.skip(start as int),
{
    let mut s = String::new();
    let mut i: usize = start;
    while i < v.len()
        invariant
            start <= i <= v@.len(),
            s@ == v@.subrange(start as int, i as int),
        decreases v@.len() - i,
    {
        push_char(&mut s, v[i]);
        i = i + 1;
        assert(s@ =~= v@.subrange(start as int, i as int));
    }
    assert(v@.skip(start as int) =~= v@.subrange(start as int, v@.len() as int));
    s
}

/// Whether `p` is an absolute path.
pub fn path_is_absolute(p: &str) -> (r: bool)
    ensures
        r == is_absolute(p@),
{
    let c = chars_of(p);
    c.len() > 0 && c[0] == '/'
}

/// Joins two paths (see [`joined_path`]).
pub fn join_path(base: &str, rest: &str) -> (r: String)
    ensures
        r@ == joined_path(base@, rest@),
{
    if path_is_absolute(rest) {
        return crate::state::owned(rest);
    }
    let b = chars_of(base);
    let mut r = crate::state::owned(base);
    if b.len() > 0 && b[b.len() - 1] != '/' {
        push_char(&mut r, '/');
    }
    push_str(&mut r, rest);
    assert(r@ =~= joined_path(base@, rest@));
    r
}

/// Expands a leading `~` (see [`tilde_expanded`]); `home` is the user's home
/// directory, if known.
pub fn expand_tilde(path: &str, home: Option<&str>) -> (r: String)
    ensures
        r@ == tilde_expanded(path@, opt_view(home)),
{
    match home {
        Some(h) => {
            let c = chars_of(path);
            if c.len() >= 2 && c[0] == '~' && c[1] == '/' {
                let rest = string_from(&c, 2);
                join_path(h, rest.as_str())
            } else if c.len() == 1 && c[0] == '~' {
                assert(path@ =~= seq!['~']);
                crate::state::owned(h)
            } else {
                proof {
                    if path@ == seq!['~'] {
                        assert(c@.len() == 1);
                    }
                }
                crate::state::owned(path)
            }
        },
        None => crate::state::owned(path),
    }
}

/// Where the configuration file lives (see [`config_file`]), given the values
/// of `XDG_CONFIG_HOME` and of the home directory.
pub fn config_path(xdg: Option<&str>, home: Option<&str>) -> (r: Option<String>)
    ensures
        (match r {
            Some(p) => Some(p@),
            None => None,
        }) == config_file(opt_view(xdg), opt_view(home)),
{
    match xdg {
        Some(x) => if path_is_absolute(x) {
            let dir = join_path(x, "mtp-tui");
            return Some(join_path(dir.as_str(), "config.toml"));
        },
        None => {},
    }
    match home {
        Some(h) => {
            let a = join_path(h, ".config");
            let b = join_path(a.as_str(), "mtp-tui");
            Some(join_path(b.as_str(), "config.toml"))
        },
        None => None,
    }
}

impl Config {
    /// The configured host folder with `~` expanded, if one is set.
    pub open spec fn expanded_host_dir(&self, home: Option<Seq<char>>) -> Option<Seq<char>> {
        match self.default_host_dir {
            Some(raw) => Some(tilde_expanded(raw@, home)),
            None => None,
        }
    }

    /// The tilde-expanded host folder, whether or not it exists; `None` only
    /// when `default_host_dir` is unset.
    pub fn host_dir_expanded(&self, home: Option<&str>) -> (r: Option<String>)
        ensures
            (match r {
                Some(p) => Some(p@),
                None => None,
            }) == self.expanded_host_dir(opt_view(home)),
    {
        match &self.default_host_dir {
            Some(raw) => Some(expand_tilde(raw.as_str(), home)),
            None => None,
        }
    }

    /// The host folder to open: the expanded setting, when it is absolute and
    /// `is_dir` says it is a folder.
    pub fn host_dir<F: Fn(&str) -> bool>(&self, home: Option<&str>, is_dir: F) -> (r: Option<
        String,
    >)
        requires
            forall|s: &str| is_dir.requires((s,)),
        ensures
            r matches Some(p) ==> self.expanded_host_dir(opt_view(home)) == Some(p@) && is_absolute(
                p@,
            ) && exists|s: &str| s@ == p@ && #[trigger] is_dir.ensures((s,), true),
            r is None ==> match self.expanded_host_dir(opt_view(home)) {
                Some(e) => !is_absolute(e) || exists|s: &str|
                    s@ == e && #[trigger] is_dir.ensures((s,), false),
                None => true,
            },
    {
        match self.host_dir_expanded(home) {
            Some(p) => {
                if path_is_absolute(p.as_str()) {
                    let s = p.as_str();
                    let found = is_dir(s);
                    if found {
                        Some(p)
                    } else {
                        None
                    }
                } else {
                    None
                }
            },
            None => None,
        }
    }

    /// The device folder to open after connecting, if one is set.
    pub fn device_dir(&self) -> (r: Option<&str>)
        ensures
            opt_view(r) == (match self.default_device_dir {
                Some(d) => Some(d@),
                None => None,
            }),
    {
        match &self.default_device_dir {
            Some(d) => Some(d.as_str()),
            None => None,
        }
    }
}

} // verus!
