//! Where the agent and its files are found.
use vstd::prelude::*;

use crate::text;

verus! {

/// A path below a directory of the user: the directory, and the names that lead from it to the
/// path.
pub struct PathBelow<B> {
    pub base: B,
    pub names: Vec<&'static str>,
}

/// A place to look for the agent: on the search path of commands, or in a directory below the
/// user's home or below the user's local data.
pub enum Place<H, D> {
    OnPath,
    InHome(PathBelow<H>),
    InDataLocal(PathBelow<D>),
}

/// What a [`PathBelow`] is.
pub struct PathView<B> {
    pub base: B,
    pub names: Seq<Seq<char>>,
}

/// What a [`Place`] is.
pub enum PlaceView<H, D> {
    OnPath,
    InHome(PathView<H>),
    InDataLocal(PathView<D>),
}

impl<B> PathBelow<B> {
    /// What the path is.
    pub open spec fn view(&self) -> PathView<B> {
        PathView { base: self.base, names: text::str_views(self.names@) }
    }
}

impl<H, D> Place<H, D> {
    /// What the place is.
    pub open spec fn view(&self) -> PlaceView<H, D> {
        match *self {
            Place::OnPath => PlaceView::OnPath,
            Place::InHome(path) => PlaceView::InHome(path.view()),
            Place::InDataLocal(path) => PlaceView::InDataLocal(path.view()),
        }
    }
}

/// The directory of those names below the user's home.
pub open spec fn place_in_home<H, D>(base: H, names: Seq<Seq<char>>) -> PlaceView<H, D> {
    PlaceView::InHome(PathView { base, names })
}

/// The directory of those names below the user's local data.
pub open spec fn place_in_data_local<H, D>(base: D, names: Seq<Seq<char>>) -> PlaceView<H, D> {
    PlaceView::InDataLocal(PathView { base, names })
}

/// The places where the agent may be, in the order in which they are tried: the search path of
/// commands, the directories below the user's home, where that is known, and the one below the
/// user's local data, where that is known.
pub open spec fn agy_places<H, D>(home: Option<H>, data_local: Option<D>) -> Seq<
    PlaceView<H, D>,
> {
    seq![PlaceView::OnPath] + match home {
        Some(h) => seq![
            place_in_home(h, seq![".local"@, "bin"@]),
            place_in_home(h, seq![".gemini"@, "bin"@]),
            place_in_home(h, seq![".gemini"@, "antigravity-cli"@, "bin"@]),
        ],
        None => seq![],
    } + match data_local {
        Some(d) => seq![place_in_data_local(d, seq!["agy"@, "bin"@])],
        None => seq![],
    }
}

/// The place to try next, after that many others did not have the agent.
pub fn agy_place<H: Copy, D: Copy>(
    home: Option<H>,
    data_local: Option<D>,
    tried: usize,
) -> (r: Option<Place<H, D>>)
    ensures
        match r {
            Some(place) => tried < agy_places(home, data_local).len() && place.view()
                == agy_places(home, data_local)[tried as int],
            None => tried >= agy_places(home, data_local).len(),
        },
{
    if tried == 0 {
        return Some(Place::OnPath);
    }
    let mut left: usize = tried - 1;
    if let Some(base) = home {
        if left < 3 {
            let names: Vec<&'static str> = if left == 0 {
                vec![".local", "bin"]
            } else if left == 1 {
                vec![".gemini", "bin"]
            } else {
                vec![".gemini", "antigravity-cli", "bin"]
            };
            assert(text::str_views(names@)
                =~= agy_places(home, data_local)[tried as int]->InHome_0.names);
            return Some(Place::InHome(PathBelow { base, names }));
        }
        left -= 3;
    }
    if let Some(base) = data_local {
        if left == 0 {
            let names: Vec<&'static str> = vec!["agy", "bin"];
            assert(text::str_views(names@) =~= seq!["agy"@, "bin"@]);
            return Some(Place::InDataLocal(PathBelow { base, names }));
        }
    }
    None
}

/// The names that lead from the user's home to the agent's configuration.
pub open spec fn config_names() -> Seq<Seq<char>> {
    seq![".gemini"@, "antigravity-cli"@]
}

/// The names that lead from the user's home to the skill that the agent reads.
pub open spec fn skill_names() -> Seq<Seq<char>> {
    config_names() + seq!["skills"@, "orx"@, "SKILL.md"@]
}

/// The path of those names below a base, where the base is known.
pub open spec fn path_below<B>(base: Option<B>, names: Seq<Seq<char>>) -> Option<PathView<B>> {
    match base {
        Some(base) => Some(PathView { base, names }),
        None => None,
    }
}

/// The view of an optional path.
pub open spec fn opt_path<B>(path: Option<PathBelow<B>>) -> Option<PathView<B>> {
    match path {
        Some(p) => Some(p.view()),
        None => None,
    }
}

/// Where the agent's configuration is, below the user's home.
pub fn config_below<B>(home: Option<B>) -> (r: Option<PathBelow<B>>)
    ensures
        opt_path(r) == path_below(home, config_names()),
{
    let base = match home {
        Some(base) => base,
        None => {
            return None;
        },
    };
    let names: Vec<&'static str> = vec![".gemini", "antigravity-cli"];
    assert(text::str_views(names@) =~= config_names());
    Some(PathBelow { base, names })
}

/// Where the skill that the agent reads is, below the user's home.
pub fn skill_below<B>(home: Option<B>) -> (r: Option<PathBelow<B>>)
    ensures
        opt_path(r) == path_below(home, skill_names()),
{
    let mut path = match config_below(home) {
        Some(path) => path,
        None => {
            return None;
        },
    };
    path.names.push("skills");
    path.names.push("orx");
    path.names.push("SKILL.md");
    assert(text::str_views(path.names@) =~= skill_names());
    Some(path)
}

/// Declares `std::path::PathBuf`; nothing is claimed of it.
#[verifier::external_type_specification]
#[verifier::external_body]
pub struct ExPathBuf(std::path::PathBuf);

/// The user's home: a directory that `dirs::home_dir` gave.
pub struct HomeDir(std::path::PathBuf);

/// The user's local data: a directory that `dirs::data_local_dir` gave.
pub struct DataLocalDir(std::path::PathBuf);

impl HomeDir {
    /// The directory.
    pub closed spec fn dir(&self) -> std::path::PathBuf {
        self.0
    }

    /// The directory.
    pub fn path(&self) -> (r: &std::path::PathBuf)
        ensures
            *r == self.dir(),
    {
        &self.0
    }
}

impl DataLocalDir {
    /// The directory.
    pub closed spec fn dir(&self) -> std::path::PathBuf {
        self.0
    }

    /// The directory.
    pub fn path(&self) -> (r: &std::path::PathBuf)
        ensures
            *r == self.dir(),
    {
        &self.0
    }
}

/// Calls `dirs::home_dir`; nothing else makes a [`HomeDir`]. Nothing more is claimed: which
/// directory it gives, and whether it gives one, rests on the environment.
#[verifier::external_body]
pub(crate) fn home_dir() -> (r: Option<HomeDir>) {
    dirs::home_dir().map(HomeDir)
}

/// Calls `dirs::data_local_dir`; nothing else makes a [`DataLocalDir`]. Nothing more is claimed:
/// which directory it gives, and whether it gives one, rests on the environment.
#[verifier::external_body]
pub(crate) fn data_local_dir() -> (r: Option<DataLocalDir>) {
    dirs::data_local_dir().map(DataLocalDir)
}

} // verus!
