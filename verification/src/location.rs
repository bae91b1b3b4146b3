//! Where projects and their configs are.

use vstd::prelude::*;
use vstd::string::*;
use crate::form::texts;
use crate::text::{copy_opt, opt_text, same_text};

verus! {

/// The name shown for a project that has none.
pub const APP_NAME: &'static str = "muster";

/// The place of a config file, as the host resolves it.
#[derive(Debug)]
pub struct Location {
    /// The path as it is stored and shown.
    pub path: String,
    /// The path with the home directory filled in: two locations are the same
    /// place when these have the same components.
    pub identity: String,
    /// The path without `.` and `..` components, as the file watcher reports it.
    pub normalized: String,
    /// The folder of the file, when the path has one.
    pub folder: Option<String>,
    /// The display name of a project with this config.
    pub label: String,
}

/// Whether two locations are the same stored place. Aliases through symbolic
/// links stay different places.
pub open spec fn same_place(a: Location, b: Location) -> bool {
    same_path(a.identity@, b.identity@)
}

/// What stands between the separators of a path.
pub open spec fn pieces(path: Seq<char>) -> Seq<Seq<char>>
    decreases path.len(),
{
    if path.len() == 0 {
        seq![Seq::empty()]
    } else {
        let before = pieces(path.drop_last());
        if path.last() == '/' {
            before.push(Seq::empty())
        } else {
            before.drop_last().push(before.last().push(path.last()))
        }
    }
}

/// The pieces of a path that count: neither empty ones nor, but at the start, a
/// lone dot.
pub open spec fn counted(pieces: Seq<Seq<char>>) -> Seq<Seq<char>>
    decreases pieces.len(),
{
    if pieces.len() == 0 {
        Seq::empty()
    } else {
        let before = counted(pieces.drop_last());
        let piece = pieces.last();
        if piece.len() == 0 || (piece == seq!['.'] && pieces.len() > 1) {
            before
        } else {
            before.push(piece)
        }
    }
}

/// The components of a path. Repeated and trailing separators do not count, nor
/// does a lone dot but at the start.
#[verifier::opaque]
pub open spec fn components(path: Seq<char>) -> Seq<Seq<char>> {
    counted(pieces(path))
}

/// Whether two paths are the same, component by component.
pub open spec fn same_path(a: Seq<char>, b: Seq<char>) -> bool {
    is_absolute(a) == is_absolute(b) && components(a) == components(b)
}

/// Returns the components of a path.
pub fn components_of(path: &String) -> (list: Vec<String>)
    ensures
        texts(list@) == components(path@),
{
    let text: &str = path.as_str();
    let len: usize = text.unicode_len();
    let mut list: Vec<String> = Vec::new();
    let mut piece: String = String::new();
    let mut first: bool = true;
    let mut i: usize = 0;
    proof {
        reveal(components);
        assert(path@.take(0) =~= Seq::empty());
        assert(pieces(path@.take(0)).drop_last() =~= Seq::empty());
        assert(texts(list@) =~= Seq::empty());
        assert(piece@ =~= Seq::empty());
    }
    while i < len
        invariant
            i <= len,
            len == path@.len(),
            text@ == path@,
            pieces(path@.take(i as int)).len() > 0,
            first == (pieces(path@.take(i as int)).len() == 1),
            piece@ == pieces(path@.take(i as int)).last(),
            texts(list@) == counted(pieces(path@.take(i as int)).drop_last()),
        decreases len - i,
    {
        let c: char = text.get_char(i);
        let ghost before = pieces(path@.take(i as int));
        assert(path@.take(i + 1).drop_last() =~= path@.take(i as int));
        assert(path@.take(i + 1).last() == c);
        if c == '/' {
            push_piece(&mut list, &piece, first);
            assert(before.push(Seq::empty()).drop_last() =~= before);
            piece = String::new();
            assert(piece@ =~= Seq::empty());
            first = false;
        } else {
            piece.push(c);
            assert(before.drop_last().push(piece@).drop_last() =~= before.drop_last());
        }
        i = i + 1;
    }
    assert(path@.take(len as int) =~= path@);
    push_piece(&mut list, &piece, first);
    list
}

/// Adds a piece of a path to the components before it, if it counts.
fn push_piece(list: &mut Vec<String>, piece: &String, first: bool)
    ensures
        texts(final(list)@) == (if piece@.len() == 0 || (piece@ == seq!['.'] && !first) {
            texts(old(list)@)
        } else {
            texts(old(list)@).push(piece@)
        }),
{
    let text: &str = piece.as_str();
    let len: usize = text.unicode_len();
    let dot: bool = len == 1 && text.get_char(0) == '.';
    assert(dot == (piece@ == seq!['.'])) by {
        if dot {
            assert(piece@ =~= seq!['.']);
        }
    }
    if len > 0 && (first || !dot) {
        list.push(piece.clone());
        assert(texts(list@) =~= texts(old(list)@).push(piece@));
    }
}

/// Returns whether two paths are the same, component by component.
pub fn paths_agree(a: &String, b: &String) -> (same: bool)
    ensures
        same == same_path(a@, b@),
{
    if absolute(a) != absolute(b) {
        return false;
    }
    let left: Vec<String> = components_of(a);
    let right: Vec<String> = components_of(b);
    assert(texts(left@).len() == left@.len());
    assert(texts(right@).len() == right@.len());
    if left.len() != right.len() {
        return false;
    }
    let mut i: usize = 0;
    while i < left.len()
        invariant
            i <= left@.len(),
            left@.len() == right@.len(),
            texts(left@) == components(a@),
            texts(right@) == components(b@),
            forall|j: int| 0 <= j < i ==> #[trigger] texts(left@)[j] == texts(right@)[j],
        decreases left@.len() - i,
    {
        if !same_text(&left[i], &right[i]) {
            assert(texts(left@)[i as int] != texts(right@)[i as int]);
            return false;
        }
        i = i + 1;
    }
    assert(texts(left@) =~= texts(right@));
    true
}

/// Components as a path.
pub open spec fn path_through(rooted: bool, parts: Seq<Seq<char>>) -> Seq<char>
    decreases parts.len(),
{
    if parts.len() == 0 {
        if rooted {
            seq!['/']
        } else {
            Seq::empty()
        }
    } else if parts.len() == 1 {
        path_through(rooted, Seq::empty()) + parts[0]
    } else {
        path_through(rooted, parts.drop_last()).push('/') + parts.last()
    }
}

/// The folder of a path: all its components but the last.
pub open spec fn parent_of(path: Seq<char>) -> Option<Seq<char>> {
    if components(path).len() == 0 {
        None
    } else {
        Some(path_through(is_absolute(path), components(path).drop_last()))
    }
}

/// Returns the folder of a path.
pub fn parent(path: &String) -> (folder: Option<String>)
    ensures
        opt_text(folder) == parent_of(path@),
{
    let list: Vec<String> = components_of(path);
    let ghost parts = components(path@);
    assert(texts(list@).len() == list@.len());
    if list.len() == 0 {
        return None;
    }
    let mut text: String = String::new();
    if absolute(path) {
        text.push('/');
    }
    let ghost rooted = is_absolute(path@);
    let mut i: usize = 0;
    proof {
        assert(parts.take(0) =~= Seq::empty());
        assert(text@ =~= path_through(rooted, parts.take(0)));
    }
    let last: usize = list.len() - 1;
    while i < last
        invariant
            i <= last,
            last == list@.len() - 1,
            parts == texts(list@),
            text@ == path_through(rooted, parts.take(i as int)),
        decreases last - i,
    {
        proof {
            assert(parts.take(i + 1).drop_last() =~= parts.take(i as int));
            assert(parts.take(i + 1).last() == list@[i as int]@);
            if i == 0 {
                assert(parts.take(0) =~= Seq::empty());
            }
        }
        if i > 0 {
            text.push('/');
        }
        text.append(list[i].as_str());
        i = i + 1;
    }
    assert(parts.take(i as int) =~= parts.drop_last());
    Some(text)
}

/// The display name of a project taken from the absolute path of its config: the
/// name of its folder, else the application's name.
pub open spec fn label_of(config: Seq<char>) -> Seq<char> {
    let parts = components(config);
    if parts.len() >= 2 && parts[parts.len() - 2] != seq!['.'] && parts[parts.len() - 2] != seq![
        '.',
        '.',
    ] {
        parts[parts.len() - 2]
    } else {
        APP_NAME@
    }
}

/// Returns the display name of a project taken from the absolute path of its
/// config.
pub fn label_from_config(config: &String) -> (label: String)
    ensures
        label@ == label_of(config@),
{
    let list: Vec<String> = components_of(config);
    assert(texts(list@).len() == list@.len());
    if list.len() < 2 {
        return APP_NAME.to_string();
    }
    let name: &String = &list[list.len() - 2];
    proof {
        reveal_strlit(".");
        reveal_strlit("..");
        assert("."@ =~= seq!['.']);
        assert(".."@ =~= seq!['.', '.']);
        assert(name@ == components(config@)[list@.len() - 2]);
    }
    if same_text(name, &".".to_string()) || same_text(name, &"..".to_string()) {
        return APP_NAME.to_string();
    }
    name.clone()
}

impl Location {
    /// The place of the config at `path`. What the working directory and the
    /// home directory add to it is handed in: the path made absolute, with the
    /// home directory filled in, and normalized.
    pub fn new(path: String, absolute: String, identity: String, normalized: String) -> (location:
        Location)
        ensures
            location.path == path,
            location.identity == identity,
            location.normalized == normalized,
            opt_text(location.folder) == parent_of(absolute@),
            location.label@ == label_of(absolute@),
    {
        let folder: Option<String> = parent(&absolute);
        let label: String = label_from_config(&absolute);
        Location { path, identity, normalized, folder, label }
    }

    /// Returns a copy of the location.
    pub fn copied(&self) -> (copy: Location)
        ensures
            copy == *self,
    {
        Location {
            path: self.path.clone(),
            identity: self.identity.clone(),
            normalized: self.normalized.clone(),
            folder: copy_opt(&self.folder),
            label: self.label.clone(),
        }
    }

    /// Returns whether this is the same stored place as `other`.
    pub fn same_config_location(&self, other: &Location) -> (same: bool)
        ensures
            same == same_place(*self, *other),
    {
        paths_agree(&self.identity, &other.identity)
    }
}

/// Returns a copy of an optional location.
pub fn copy_location(location: &Option<Location>) -> (copy: Option<Location>)
    ensures
        copy == *location,
{
    match location {
        Some(location) => Some(location.copied()),
        None => None,
    }
}

/// Whether a path starts at the root.
pub open spec fn is_absolute(path: Seq<char>) -> bool {
    path.len() > 0 && path[0] == '/'
}

/// Returns whether a path starts at the root.
pub fn absolute(path: &String) -> (result: bool)
    ensures
        result == is_absolute(path@),
{
    let text: &str = path.as_str();
    text.unicode_len() > 0 && text.get_char(0) == '/'
}

/// A path that continues another one.
pub open spec fn path_join(base: Seq<char>, path: Seq<char>) -> Seq<char> {
    if is_absolute(path) {
        path
    } else if base.len() == 0 || base.last() == '/' {
        base + path
    } else {
        base.push('/') + path
    }
}

/// Returns a path that continues another one.
pub fn join_paths(base: &String, path: &String) -> (joined: String)
    ensures
        joined@ == path_join(base@, path@),
{
    if absolute(path) {
        return path.clone();
    }
    let mut joined: String = base.clone();
    let len: usize = base.as_str().unicode_len();
    if len > 0 && base.as_str().get_char(len - 1) != '/' {
        joined.push('/');
    }
    joined.append(path.as_str());
    joined
}

/// The directory that a process runs in.
#[derive(Debug)]
pub enum Directory {
    /// A directory of its own.
    Given(String),
    /// A directory below the project's folder.
    Under {
        /// The project's folder.
        folder: String,
        /// The way from there.
        relative: String,
    },
}

impl Directory {
    /// The path of the directory.
    pub open spec fn words(self) -> Seq<char> {
        match self {
            Directory::Given(path) => path@,
            Directory::Under { folder, relative } => path_join(folder@, relative@),
        }
    }

    /// Returns the path of the directory.
    pub fn path(&self) -> (path: String)
        ensures
            path@ == self.words(),
    {
        match self {
            Directory::Given(path) => path.clone(),
            Directory::Under { folder, relative } => join_paths(folder, relative),
        }
    }
}

/// The directory of a process with the configured directory `configured` in a
/// project: an absolute one stands alone, a relative one continues the project's
/// folder, and without one it is that folder.
pub open spec fn spawn_directory(
    project: Option<Location>,
    configured: Option<String>,
) -> Option<Directory> {
    let folder = match project {
        Some(location) => location.folder,
        None => None,
    };
    match (folder, configured) {
        (Some(folder), Some(relative)) => if is_absolute(relative@) {
            Some(Directory::Given(relative))
        } else {
            Some(Directory::Under { folder, relative })
        },
        (None, Some(path)) => Some(Directory::Given(path)),
        (Some(folder), None) => Some(Directory::Given(folder)),
        (None, None) => None,
    }
}

/// Resolves the project that a process is told of and its effective directory.
pub fn resolve_spawn_paths(project: &Option<Location>, configured: &Option<String>) -> (paths: (
    Option<Location>,
    Option<Directory>,
))
    ensures
        paths.0 == *project,
        paths.1 == spawn_directory(*project, *configured),
{
    let folder: Option<String> = match project {
        Some(location) => copy_opt(&location.folder),
        None => None,
    };
    let directory: Option<Directory> = match configured {
        Some(path) => match folder {
            Some(folder) => if absolute(path) {
                Some(Directory::Given(path.clone()))
            } else {
                Some(Directory::Under { folder, relative: path.clone() })
            },
            None => Some(Directory::Given(path.clone())),
        },
        None => match folder {
            Some(folder) => Some(Directory::Given(folder)),
            None => None,
        },
    };
    (copy_location(project), directory)
}

/// A process with an absolute directory runs there whatever the project, and a
/// relative one is counted from the project's folder.
pub proof fn absolute_directories_stand_alone(
    project: Option<Location>,
    other: Option<Location>,
    configured: String,
)
    ensures
        is_absolute(configured@) ==> spawn_directory(project, Some(configured)) == spawn_directory(
            other,
            Some(configured),
        ),
        is_absolute(configured@) ==> spawn_directory(project, Some(configured)) == Some(
            Directory::Given(configured),
        ),
        !is_absolute(configured@) && project is Some && project->0.folder is Some ==> {
            let directory = spawn_directory(project, Some(configured))->0.words();
            let folder = project->0.folder->0@;
            directory.take(folder.len() as int) == folder
        },
{
    if !is_absolute(configured@) && project is Some && project->0.folder is Some {
        let directory = spawn_directory(project, Some(configured))->0.words();
        let folder = project->0.folder->0@;
        assert(directory.take(folder.len() as int) =~= folder);
    }
}

/// A registered project.
#[derive(Debug)]
pub struct Project {
    /// Display name.
    pub name: String,
    /// Stored config.
    pub config: Location,
    /// Where the config opens, or why it cannot be found.
    pub opens_at: Result<Location, String>,
}

impl Project {
    /// Returns a copy of the project.
    pub fn copied(&self) -> (copy: Project)
        ensures
            copy == *self,
    {
        Project {
            name: self.name.clone(),
            config: self.config.copied(),
            opens_at: match &self.opens_at {
                Ok(location) => Ok(location.copied()),
                Err(error) => Err(error.clone()),
            },
        }
    }
}

/// Returns a copy of a list of projects.
pub fn copy_projects(projects: &Vec<Project>) -> (copy: Vec<Project>)
    ensures
        copy@ == projects@,
{
    let mut copy: Vec<Project> = Vec::new();
    let mut i: usize = 0;
    while i < projects.len()
        invariant
            i <= projects@.len(),
            copy@ == projects@.take(i as int),
        decreases projects@.len() - i,
    {
        copy.push(projects[i].copied());
        i = i + 1;
        assert(copy@ =~= projects@.take(i as int));
    }
    assert(projects@.take(i as int) =~= projects@);
    copy
}

/// The first project at a place.
pub open spec fn project_at(projects: Seq<Project>, place: Location) -> Option<int>
    decreases projects.len(),
{
    if projects.len() == 0 {
        None
    } else {
        match project_at(projects.drop_last(), place) {
            Some(index) => Some(index),
            None => if same_place(projects.last().config, place) {
                Some(projects.len() - 1)
            } else {
                None
            },
        }
    }
}

/// The project found stands at the place, and none before it does.
pub proof fn project_at_is_the_first(projects: Seq<Project>, place: Location)
    ensures
        project_at(projects, place) matches Some(index) ==> 0 <= index < projects.len()
            && same_place(projects[index].config, place) && forall|i: int|
            0 <= i < index ==> !same_place((#[trigger] projects[i]).config, place),
        project_at(projects, place) is None ==> forall|i: int|
            0 <= i < projects.len() ==> !same_place((#[trigger] projects[i]).config, place),
    decreases projects.len(),
{
    if projects.len() > 0 {
        let rest = projects.drop_last();
        project_at_is_the_first(rest, place);
        assert forall|i: int| 0 <= i < rest.len() implies rest[i] == projects[i] by {}
    }
}

/// Returns the first project at a place.
pub fn find_project(projects: &Vec<Project>, place: &Location) -> (found: Option<usize>)
    ensures
        match found {
            Some(index) => project_at(projects@, *place) == Some(index as int) && index
                < projects@.len(),
            None => project_at(projects@, *place) is None,
        },
{
    let mut i: usize = 0;
    assert(projects@.take(0).len() == 0);
    while i < projects.len()
        invariant
            i <= projects@.len(),
            project_at(projects@.take(i as int), *place) is None,
        decreases projects@.len() - i,
    {
        let ghost longer = projects@.take(i + 1);
        assert(longer.drop_last() =~= projects@.take(i as int));
        if projects[i].config.same_config_location(place) {
            proof {
                project_found_early(projects@, *place, i as int);
            }
            return Some(i);
        }
        i = i + 1;
    }
    assert(projects@.take(i as int) =~= projects@);
    None
}

/// A project found in a prefix is found in the whole.
proof fn project_found_early(projects: Seq<Project>, place: Location, i: int)
    requires
        0 <= i < projects.len(),
        project_at(projects.take(i), place) is None,
        same_place(projects[i].config, place),
    ensures
        project_at(projects, place) == Some(i),
{
    project_at_is_the_first(projects, place);
    project_at_is_the_first(projects.take(i), place);
    match project_at(projects, place) {
        Some(index) => {
            if index < i {
                assert(projects.take(i)[index] == projects[index]);
            }
        },
        None => {},
    }
}

/// The projects that stand at other places.
pub open spec fn projects_elsewhere(projects: Seq<Project>, place: Location) -> Seq<Project> {
    projects.filter(|project: Project| !same_place(project.config, place))
}

/// The projects that stand at a place.
pub open spec fn projects_there(projects: Seq<Project>, place: Location) -> Seq<Project> {
    projects.filter(|project: Project| same_place(project.config, place))
}

/// Returns the registry without the projects at a place: the edit that removes
/// a project.
pub fn without_project(projects: Vec<Project>, place: &Location) -> (rest: Vec<Project>)
    ensures
        rest@ == projects_elsewhere(projects@, *place),
{
    split_projects(&projects, place).0
}

/// Splits a registry into the projects elsewhere and those at a place.
fn split_projects(projects: &Vec<Project>, place: &Location) -> (parts: (
    Vec<Project>,
    Vec<Project>,
))
    ensures
        parts.0@ == projects_elsewhere(projects@, *place),
        parts.1@ == projects_there(projects@, *place),
{
    let mut elsewhere: Vec<Project> = Vec::new();
    let mut there: Vec<Project> = Vec::new();
    let mut i: usize = 0;
    let ghost away = |project: Project| !same_place(project.config, *place);
    let ghost here = |project: Project| same_place(project.config, *place);
    proof {
        reveal(Seq::filter);
        assert(projects@.take(0) =~= Seq::<Project>::empty());
    }
    while i < projects.len()
        invariant
            i <= projects@.len(),
            away == (|project: Project| !same_place(project.config, *place)),
            here == (|project: Project| same_place(project.config, *place)),
            elsewhere@ == projects@.take(i as int).filter(away),
            there@ == projects@.take(i as int).filter(here),
        decreases projects@.len() - i,
    {
        proof {
            reveal(Seq::filter);
            assert(projects@.take(i + 1).drop_last() =~= projects@.take(i as int));
        }
        let project: Project = projects[i].copied();
        if project.config.same_config_location(place) {
            there.push(project);
        } else {
            elsewhere.push(project);
        }
        i = i + 1;
    }
    assert(projects@.take(i as int) =~= projects@);
    (elsewhere, there)
}

/// The registry with a project in place of those at its location.
pub open spec fn registered(projects: Seq<Project>, project: Project) -> Seq<Project> {
    projects_elsewhere(projects, project.config).push(project)
}

/// Registers a project, replacing any entry for the same place. Returns the new
/// registry and the entries that it replaced.
pub fn register_project(projects: Vec<Project>, project: Project) -> (edit: (
    Vec<Project>,
    Vec<Project>,
))
    ensures
        edit.0@ == registered(projects@, project),
        edit.1@ == projects_there(projects@, project.config),
{
    let (mut rest, preimage) = split_projects(&projects, &project.config);
    rest.push(project);
    (rest, preimage)
}

/// The first project with a name at a place.
pub open spec fn own_entry(projects: Seq<Project>, name: Seq<char>, place: Location) -> Option<int>
    decreases projects.len(),
{
    if projects.len() == 0 {
        None
    } else {
        match own_entry(projects.drop_last(), name, place) {
            Some(index) => Some(index),
            None => if projects.last().name@ == name && same_place(projects.last().config, place) {
                Some(projects.len() - 1)
            } else {
                None
            },
        }
    }
}

/// The registry after a registration is undone: only the entry that was written
/// goes, and the replaced ones return.
pub open spec fn rolled_back(
    projects: Seq<Project>,
    name: Seq<char>,
    place: Location,
    preimage: Seq<Project>,
) -> Seq<Project> {
    match own_entry(projects, name, place) {
        Some(index) => projects.remove(index) + preimage,
        None => projects,
    }
}

/// An own entry lies in the registry.
proof fn own_entry_bounds(projects: Seq<Project>, name: Seq<char>, place: Location)
    ensures
        own_entry(projects, name, place) matches Some(index) ==> 0 <= index < projects.len()
            && projects[index].name@ == name && same_place(projects[index].config, place),
        own_entry(projects, name, place) is None ==> forall|i: int|
            0 <= i < projects.len() ==> !((#[trigger] projects[i]).name@ == name && same_place(
                projects[i].config,
                place,
            )),
        own_entry(projects, name, place) matches Some(index) ==> forall|i: int|
            0 <= i < index ==> !((#[trigger] projects[i]).name@ == name && same_place(
                projects[i].config,
                place,
            )),
    decreases projects.len(),
{
    if projects.len() > 0 {
        let rest = projects.drop_last();
        own_entry_bounds(rest, name, place);
        assert forall|i: int| 0 <= i < rest.len() implies rest[i] == projects[i] by {}
    }
}

/// Undoes a registration whose follow-up step failed. Removes only the entry
/// with the given name and place, so that a registration another writer made in
/// the meantime is kept.
pub fn rollback_registration(
    projects: Vec<Project>,
    name: &String,
    place: &Location,
    preimage: &Vec<Project>,
) -> (restored: Vec<Project>)
    ensures
        restored@ == rolled_back(projects@, name@, *place, preimage@),
{
    let mut list: Vec<Project> = projects;
    let mut i: usize = 0;
    while i < list.len()
        invariant
            list@ == projects@,
            i <= list@.len(),
            forall|j: int|
                0 <= j < i ==> !((#[trigger] list@[j]).name@ == name@ && same_place(
                    list@[j].config,
                    *place,
                )),
        decreases list@.len() - i,
    {
        if same_text(&list[i].name, name) && list[i].config.same_config_location(place) {
            proof {
                own_entry_bounds(projects@, name@, *place);
            }
            list.remove(i);
            let mut back: Vec<Project> = copy_projects(preimage);
            list.append(&mut back);
            return list;
        }
        i = i + 1;
    }
    proof {
        own_entry_bounds(projects@, name@, *place);
    }
    list
}

/// Undoing a registration right away leaves the entries elsewhere as they were
/// and brings back every entry that was replaced.
pub proof fn rollback_restores_the_registry(projects: Seq<Project>, project: Project)
    ensures
        rolled_back(
            registered(projects, project),
            project.name@,
            project.config,
            projects_there(projects, project.config),
        ) == projects_elsewhere(projects, project.config) + projects_there(projects, project.config),
{
    let rest = projects_elsewhere(projects, project.config);
    let all = registered(projects, project);
    own_entry_bounds(all, project.name@, project.config);
    broadcast use vstd::seq_lib::group_filter_ensures;

    assert forall|i: int| 0 <= i < rest.len() implies !same_place(
        (#[trigger] rest[i]).config,
        project.config,
    ) by {}
    match own_entry(all, project.name@, project.config) {
        Some(index) => {
            if index < rest.len() {
                assert(all[index] == rest[index]);
            }
            assert(all.remove(index) =~= rest);
        },
        None => {
            assert(all[rest.len() as int] == project);
        },
    }
}

/// A project that is removed is gone, and every project elsewhere stays.
pub proof fn removal_touches_one_place(projects: Seq<Project>, place: Location, i: int)
    requires
        0 <= i < projects.len(),
    ensures
        !same_place(projects[i].config, place) <==> projects_elsewhere(projects, place).contains(
            projects[i],
        ),
        project_at(projects_elsewhere(projects, place), place) is None,
{
    let away = |p: Project| !same_place(p.config, place);
    broadcast use vstd::seq_lib::group_filter_ensures;

    let rest = projects_elsewhere(projects, place);
    project_at_is_the_first(rest, place);
    if same_place(projects[i].config, place) && rest.contains(projects[i]) {
        let j = choose|j: int| 0 <= j < rest.len() && rest[j] == projects[i];
        assert(away(rest[j]));
    }
    match project_at(rest, place) {
        Some(index) => {
            assert(away(rest[index]));
        },
        None => {},
    }
}

} // verus!
