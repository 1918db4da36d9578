//! Where a package's file goes.
//!
//! A package is written to `location/name`. A location may begin with `~` or
//! `~user`, which stands for a home directory; which directory that is only
//! the running system knows, so it is looked up once, through the
//! `expanduser` crate, and handed to the path rules as a plain value.

use crate::text::{find_char, first_index_of, lemma_first_index_of};
use vstd::prelude::*;

verus! {

/// The permission bits every installed file gets: `rwxr-xr-x`.
pub const EXECUTABLE_MODE: u32 = 0o755;

/// Why a package's file could not be put in place.
#[derive(Debug, PartialEq, Eq)]
pub enum InstallError {
    /// `location` names a home directory, and none could be found for it.
    PathResolution { location: String },
    /// Writing `path` or setting its mode failed; `cause` says how.
    Io { path: String, cause: String },
}

/// The mathematical content of an [`InstallError`].
pub enum InstallErrorView {
    PathResolution { location: Seq<char> },
    Io { path: Seq<char>, cause: Seq<char> },
}

impl InstallErrorView {
    /// The failure in words.
    pub open spec fn text(self) -> Seq<char> {
        match self {
            InstallErrorView::PathResolution { location } => "No home directory found for "@
                + location,
            InstallErrorView::Io { path, cause } => "Failed to write "@ + path + ": "@ + cause,
        }
    }
}

impl View for InstallError {
    type V = InstallErrorView;

    open spec fn view(&self) -> InstallErrorView {
        match self {
            InstallError::PathResolution { location } => InstallErrorView::PathResolution {
                location: location@,
            },
            InstallError::Io { path, cause } => InstallErrorView::Io {
                path: path@,
                cause: cause@,
            },
        }
    }
}

impl InstallError {
    /// The failure in words, for the progress display.
    pub fn message(&self) -> (message: String)
        ensures
            message@ == self@.text(),
    {
        match self {
            InstallError::PathResolution { location } => {
                let mut message = "No home directory found for ".to_owned();
                message.append(location.as_str());
                message
            },
            InstallError::Io { path, cause } => {
                let mut message = "Failed to write ".to_owned();
                message.append(path.as_str());
                message.append(": ");
                message.append(cause.as_str());
                message
            },
        }
    }
}

/// A resolved path or the reason there is none, as mathematical values.
pub open spec fn path_view(r: Result<String, InstallError>) -> Result<Seq<char>, InstallErrorView> {
    match r {
        Ok(path) => Ok(path@),
        Err(e) => Err(e@),
    }
}

/// A home directory that was or was not found, as a mathematical value.
pub open spec fn home_view(home: Option<&str>) -> Option<Seq<char>> {
    match home {
        Some(dir) => Some(dir@),
        None => None,
    }
}

/// Whether a path starts at the root.
pub open spec fn is_absolute(path: Seq<char>) -> bool {
    path.len() > 0 && path[0] == '/'
}

/// `name` seen from the directory `base`: an absolute `name` stands for
/// itself, any other is appended to `base`, after a `/` where `base` does
/// not end in one.
pub open spec fn join(base: Seq<char>, name: Seq<char>) -> Seq<char> {
    if is_absolute(name) || base.len() == 0 {
        name
    } else if base.last() == '/' {
        base + name
    } else {
        base + seq!['/'] + name
    }
}

/// Whether a location begins with a reference to a home directory.
pub open spec fn names_home(location: Seq<char>) -> bool {
    location.len() > 0 && location[0] == '~'
}

/// The part of a location that names the home directory: everything before
/// its first `/`. It is `~` for the current user and `~user` for another.
pub open spec fn home_reference(location: Seq<char>) -> Seq<char> {
    location.subrange(0, first_index_of(location, '/'))
}

/// A location that names a home directory, with `home` in place of the
/// reference. The reference is what stands before the first `/`: `~` for
/// the current user, `~user` for another. The result is `home` itself where
/// nothing follows the reference, else what follows the first `/`, seen
/// from `home`.
pub open spec fn expanded(home: Seq<char>, location: Seq<char>) -> Seq<char> {
    let cut = first_index_of(location, '/');
    if cut < location.len() {
        join(home, location.subrange(cut + 1, location.len() as int))
    } else {
        home
    }
}

/// The path of the file `name` under `location`, where `home` is the
/// directory that the location's home reference, if it has one, stands for.
pub open spec fn resolved(home: Option<Seq<char>>, location: Seq<char>, name: Seq<char>) -> Result<
    Seq<char>,
    InstallErrorView,
> {
    if !names_home(location) {
        Ok(join(location, name))
    } else {
        match home {
            Some(dir) => Ok(join(expanded(dir, location), name)),
            None => Err(InstallErrorView::PathResolution { location }),
        }
    }
}

/// A location that refers to a home directory resolves below that
/// directory: `reference/rest` resolves to `home` joined with `rest` and
/// then with `name`, and the bare `reference` to `home` joined with `name`.
/// Here `reference` is `~` or `~user`, and `home` is the directory found for
/// it.
pub proof fn lemma_resolves_below_home(
    home: Seq<char>,
    reference: Seq<char>,
    rest: Seq<char>,
    name: Seq<char>,
)
    requires
        names_home(reference),
        !reference.contains('/'),
    ensures
        resolved(Some(home), reference + seq!['/'] + rest, name) == Ok::<
            Seq<char>,
            InstallErrorView,
        >(join(join(home, rest), name)),
        resolved(Some(home), reference, name) == Ok::<Seq<char>, InstallErrorView>(
            join(home, name),
        ),
{
    let location = reference + seq!['/'] + rest;
    let cut = reference.len() as int;
    lemma_first_index_of(location, '/', cut);
    assert(location.subrange(cut + 1, location.len() as int) =~= rest);
}

/// Asks `expanduser::expanduser` for the directory that `reference` stands
/// for: the current user's home for `~`, the named user's for `~user`. The
/// answer comes from the environment and the user database, so the contract
/// promises nothing of it; `None` stands for the crate's error and for a
/// directory that is not valid UTF-8.
#[verifier::external_body]
fn expand_user(reference: &str) -> (dir: Option<String>) {
    match expanduser::expanduser(reference) {
        Ok(path) => path.into_os_string().into_string().ok(),
        Err(_) => None,
    }
}

/// Tests whether a location begins with a reference to a home directory.
pub fn starts_at_home(location: &str) -> (at_home: bool)
    ensures
        at_home == names_home(location@),
{
    location.unicode_len() > 0 && location.get_char(0) == '~'
}

/// Joins a file name to a directory.
pub fn join_path(base: &str, name: &str) -> (path: String)
    ensures
        path@ == join(base@, name@),
{
    let b: usize = base.unicode_len();
    let n: usize = name.unicode_len();
    if b == 0 || (n > 0 && name.get_char(0) == '/') {
        return name.to_owned();
    }
    let mut path = base.to_owned();
    if base.get_char(b - 1) != '/' {
        proof {
            reveal_strlit("/");
        }
        path.append("/");
    }
    path.append(name);
    path
}

/// Puts `home` in the place of a location's home reference.
pub fn expand_home(home: &str, location: &str) -> (dir: String)
    ensures
        dir@ == expanded(home@, location@),
{
    let n: usize = location.unicode_len();
    let cut: usize = find_char(location, '/');
    if cut < n {
        join_path(home, location.substring_char(cut + 1, n))
    } else {
        home.to_owned()
    }
}

/// Looks up the home directory that a location refers to. A location
/// without such a reference needs none, and no lookup is made for it. For
/// any other the system is asked what the location's home reference stands
/// for; whether it knows a directory is for the system to say, so a
/// directory is never owed.
pub fn lookup_home(location: &str) -> (home: Option<String>)
    ensures
        !names_home(location@) ==> home is None,
{
    if !starts_at_home(location) {
        return None;
    }
    let cut: usize = find_char(location, '/');
    let reference = location.substring_char(0, cut);
    assert(reference@ == home_reference(location@));
    expand_user(reference)
}

/// Resolves the path that the file `name` is installed at: `location`, with
/// `home` in the place of a leading home reference, joined with `name`.
/// A location that refers to a home directory cannot be resolved without
/// one; any other location is resolved whatever `home` holds.
pub fn get_install_path(home: Option<&str>, location: &str, name: &str) -> (path: Result<
    String,
    InstallError,
>)
    ensures
        path_view(path) == resolved(home_view(home), location@, name@),
{
    if !starts_at_home(location) {
        return Ok(join_path(location, name));
    }
    match home {
        Some(dir) => {
            let base = expand_home(dir, location);
            Ok(join_path(base.as_str(), name))
        },
        None => Err(InstallError::PathResolution { location: location.to_owned() }),
    }
}

} // verus!
