//! Where the client keeps its files, and how places are shown.
//!
//! Paths are written with `/` between their parts.

use vstd::prelude::*;

use crate::text;

verus! {

broadcast use vstd::string::group_string_axioms;

/// The parts of a path that name something: empty parts and `.` name nothing.
pub open spec fn named_parts(parts: Seq<Seq<char>>) -> Seq<Seq<char>>
    decreases parts.len(),
{
    if parts.len() == 0 {
        Seq::empty()
    } else {
        let rest = named_parts(parts.drop_last());
        if parts.last().len() == 0 || parts.last() == "."@ {
            rest
        } else {
            rest.push(parts.last())
        }
    }
}

/// The parts of a path.
pub open spec fn parts_of(path: Seq<char>) -> Seq<Seq<char>> {
    named_parts(text::split(path, '/'))
}

/// Whether a path begins at the root.
pub open spec fn rooted(path: Seq<char>) -> bool {
    path.len() > 0 && path[0] == '/'
}

pub(crate) fn is_rooted(path: &str) -> (r: bool)
    ensures
        r == rooted(path@),
{
    let chars: Vec<char> = text::chars_of(path);
    chars.len() > 0 && chars[0] == '/'
}

/// The parts of a path.
pub fn path_parts(path: &str) -> (r: Vec<String>)
    ensures
        text::views(r@) == parts_of(path@),
{
    let all: Vec<String> = text::split_text(path, '/');
    let mut out: Vec<String> = Vec::new();
    let mut i: usize = 0;
    assert(text::views(all@).take(0) =~= Seq::<Seq<char>>::empty());
    assert(text::views(out@) =~= Seq::<Seq<char>>::empty());
    while i < all.len()
        invariant
            i <= all@.len(),
            text::views(out@) == named_parts(text::views(all@).take(i as int)),
        decreases all@.len() - i,
    {
        let ghost before = text::views(out@);
        let ghost part = text::views(all@).take(i + 1);
        assert(part.drop_last() =~= text::views(all@).take(i as int));
        assert(part.last() == all@[i as int]@);
        let chars: Vec<char> = text::chars_of(all[i].as_str());
        if chars.len() > 0 && !text::same_text(all[i].as_str(), ".") {
            let name: String = all[i].clone();
            out.push(name);
            assert(text::views(out@) =~= before.push(all@[i as int]@));
        }
        i += 1;
    }
    assert(text::views(all@).take(all@.len() as int) =~= text::views(all@));
    out
}

/// A path as it is shown: below the home directory, from there.
pub open spec fn shown_path(path: Seq<char>, home: Option<Seq<char>>) -> Seq<char> {
    match home {
        Some(home) => {
            let own = parts_of(home);
            let all = parts_of(path);
            if rooted(home) == rooted(path) && own.len() <= all.len() && all.take(own.len() as int)
                == own {
                "~/"@ + text::join(all.skip(own.len() as int), "/"@)
            } else {
                path
            }
        },
        None => path,
    }
}

/// A path as it is shown: below the home directory, from there.
pub fn display_path(path: &str, home: &Option<String>) -> (r: String)
    ensures
        r@ == shown_path(
            path@,
            match *home {
                Some(home) => Some(home@),
                None => None,
            },
        ),
{
    let own_home: &String = match home {
        Some(own_home) => own_home,
        None => {
            return path.to_owned();
        },
    };
    let own: Vec<String> = path_parts(own_home.as_str());
    let all: Vec<String> = path_parts(path);
    let ghost own_parts = parts_of(own_home@);
    let ghost all_parts = parts_of(path@);
    assert(own@.len() == own_parts.len());
    assert(all@.len() == all_parts.len());
    if is_rooted(own_home.as_str()) != is_rooted(path) || own.len() > all.len() {
        return path.to_owned();
    }
    let mut i: usize = 0;
    while i < own.len()
        invariant
            i <= own@.len() <= all@.len(),
            own_parts == text::views(own@),
            all_parts == text::views(all@),
            forall|j: int| 0 <= j < i ==> #[trigger] all_parts[j] == own_parts[j],
            *home == Some(*own_home),
            own_parts == parts_of(own_home@),
            all_parts == parts_of(path@),
        decreases own@.len() - i,
    {
        if !text::same_text(own[i].as_str(), all[i].as_str()) {
            proof {
                assert(own_parts[i as int] != all_parts[i as int]);
                assert(all_parts.take(own_parts.len() as int)[i as int] == all_parts[i as int]);
            }
            return path.to_owned();
        }
        i += 1;
    }
    assert(all_parts.take(own_parts.len() as int) =~= own_parts);
    let mut rest: Vec<String> = Vec::new();
    assert(text::views(rest@) =~= all_parts.subrange(i as int, i as int));
    let ghost from = i as int;
    while i < all.len()
        invariant
            from == own_parts.len(),
            from <= i <= all@.len(),
            all_parts == text::views(all@),
            text::views(rest@) == all_parts.subrange(from, i as int),
        decreases all@.len() - i,
    {
        let ghost before = text::views(rest@);
        let name: String = all[i].clone();
        rest.push(name);
        assert(text::views(rest@) =~= before.push(all_parts[i as int]));
        assert(all_parts.subrange(from, i + 1) =~= before.push(all_parts[i as int]));
        i += 1;
    }
    assert(all_parts.subrange(from, all_parts.len() as int) =~= all_parts.skip(from));
    let below: String = text::join_texts(&rest, "/");
    text::joined("~/", below.as_str())
}

/// What a command printed, without the blanks around it, unless that is nothing.
pub open spec fn printed(output: Option<Seq<char>>) -> Option<Seq<char>> {
    match output {
        Some(words) => if text::trim(words).len() > 0 {
            Some(text::trim(words))
        } else {
            None
        },
        None => None,
    }
}

fn read_printed(output: &Option<String>) -> (r: Option<String>)
    ensures
        crate::entry_view::option_view(r) == printed(crate::entry_view::option_view(*output)),
{
    match output {
        Some(words) => {
            let trimmed: String = text::trimmed(words.as_str());
            let chars: Vec<char> = text::chars_of(trimmed.as_str());
            if chars.len() > 0 {
                Some(trimmed)
            } else {
                None
            }
        },
        None => None,
    }
}

/// The branch that is checked out: the name of the branch, or the commit where there
/// is none. What ends in a colon is no commit. `symbolic` and `commit` are what
/// Git printed, where it succeeded.
pub fn branch_name(symbolic: &Option<String>, commit: &Option<String>) -> (r: Option<String>)
    ensures
        crate::entry_view::option_view(r) == (match printed(
            crate::entry_view::option_view(*symbolic),
        ) {
            Some(branch) => Some(branch),
            None => match printed(crate::entry_view::option_view(*commit)) {
                Some(commit) => if commit.last() == ':' {
                    None
                } else {
                    Some("detached:"@ + commit)
                },
                None => None,
            },
        }),
{
    match read_printed(symbolic) {
        Some(branch) => Some(branch),
        None => match read_printed(commit) {
            Some(commit) => {
                let chars: Vec<char> = text::chars_of(commit.as_str());
                if chars[chars.len() - 1] == ':' {
                    None
                } else {
                    Some(text::joined("detached:", commit.as_str()))
                }
            },
            None => None,
        },
    }
}

/// The directory around a place below the root; the root itself has none.
pub open spec fn parent_of(path: Seq<char>) -> Option<Seq<char>> {
    let parts = parts_of(path);
    if !rooted(path) || parts.len() == 0 {
        None
    } else {
        Some("/"@ + text::join(parts.drop_last(), "/"@))
    }
}

/// A place in a directory.
pub open spec fn place_in(directory: Seq<char>, name: Seq<char>) -> Seq<char> {
    if directory.len() > 0 && directory.last() == '/' {
        directory + name
    } else {
        directory + "/"@ + name
    }
}

fn place_below(directory: &str, name: &str) -> (r: String)
    ensures
        r@ == place_in(directory@, name@),
{
    let chars: Vec<char> = text::chars_of(directory);
    if chars.len() > 0 && chars[chars.len() - 1] == '/' {
        text::joined(directory, name)
    } else {
        text::joined3(directory, "/", name)
    }
}

fn parent_path(path: &str) -> (r: Option<String>)
    ensures
        crate::entry_view::option_view(r) == parent_of(path@),
{
    let mut parts: Vec<String> = path_parts(path);
    let ghost all = text::views(parts@);
    assert(parts@.len() == all.len());
    if !is_rooted(path) || parts.len() == 0 {
        return None;
    }
    let _last: Option<String> = parts.pop();
    assert(text::views(parts@) =~= all.drop_last());
    let below: String = text::join_texts(&parts, "/");
    Some(text::joined("/", below.as_str()))
}

/// Where the tasks of a stored session are kept: beside it. A session that is not
/// stored at an absolute path keeps none.
pub fn task_root(owner_path: &str) -> (r: Option<String>)
    ensures
        crate::entry_view::option_view(r) == (match parent_of(owner_path@) {
            Some(directory) => Some(place_in(directory, "torii-task-runs"@)),
            None => None,
        }),
{
    match parent_path(owner_path) {
        Some(directory) => Some(place_below(directory.as_str(), "torii-task-runs")),
        None => None,
    }
}

/// Where the workflow runs of a project are kept.
pub fn run_root(cwd: &str) -> (r: String)
    ensures
        r@ == place_in(place_in(cwd@, ".pi"@), "workflow-runs"@),
{
    let settings: String = place_below(cwd, ".pi");
    place_below(settings.as_str(), "workflow-runs")
}

/// Where the workflows of a project are defined.
pub fn workflow_root(cwd: &str) -> (r: String)
    ensures
        r@ == place_in(place_in(cwd@, ".pi"@), "workflows"@),
{
    let settings: String = place_below(cwd, ".pi");
    place_below(settings.as_str(), "workflows")
}

/// Where the versions of an installation are kept together, if the executable is the
/// program of one of them: `root/versions/version/bin/executable`.
pub fn install_root(executable: &str) -> (r: Option<String>)
    ensures
        crate::entry_view::option_view(r) == ({
            let parts = parts_of(executable@);
            if rooted(executable@) && parts.len() >= 4 && parts[parts.len() - 4] == "versions"@ {
                Some("/"@ + text::join(parts.take(parts.len() - 4), "/"@))
            } else {
                None
            }
        }),
{
    let mut parts: Vec<String> = path_parts(executable);
    let ghost all = text::views(parts@);
    assert(parts@.len() == all.len());
    if !is_rooted(executable) || parts.len() < 4 {
        return None;
    }
    let place: usize = parts.len() - 4;
    assert(all[place as int] == parts@[place as int]@);
    if !text::same_text(parts[place].as_str(), "versions") {
        return None;
    }
    parts.truncate(place);
    assert(text::views(parts@) =~= all.take(place as int));
    let below: String = text::join_texts(&parts, "/");
    Some(text::joined("/", below.as_str()))
}

/// Where the client keeps its own files: where it is told to, or else in the home
/// directory, which one of two variables may name.
pub fn client_home(
    told: Option<String>,
    home: Option<String>,
    profile: Option<String>,
) -> (r: Option<String>)
    ensures
        crate::entry_view::option_view(r) == (match (told, home, profile) {
            (Some(place), _, _) => Some(place@),
            (None, Some(directory), _) => Some(place_in(directory@, ".torii"@)),
            (None, None, Some(directory)) => Some(place_in(directory@, ".torii"@)),
            (None, None, None) => None,
        }),
{
    match (told, home, profile) {
        (Some(place), _, _) => Some(place),
        (None, Some(directory), _) => Some(place_below(directory.as_str(), ".torii")),
        (None, None, Some(directory)) => Some(place_below(directory.as_str(), ".torii")),
        (None, None, None) => None,
    }
}

/// A path below the home directory is shown without it, whatever the home directory is.
pub proof fn home_is_not_shown(home: Seq<char>, path: Seq<char>)
    requires
        rooted(home) == rooted(path),
        parts_of(home).len() <= parts_of(path).len(),
        parts_of(path).take(parts_of(home).len() as int) == parts_of(home),
    ensures
        text::begins_with(shown_path(path, Some(home)), "~/"@),
{
    let below = text::join(parts_of(path).skip(parts_of(home).len() as int), "/"@);
    let shown = shown_path(path, Some(home));
    assert(shown == "~/"@ + below);
    assert(shown.take("~/"@.len() as int) =~= "~/"@);
}

/// What is shown of a path below the home directory is the rest of it, part by part; a path
/// elsewhere is shown as it is.
pub proof fn paths_are_shown_from_home(home: Seq<char>, path: Seq<char>)
    ensures
        shown_path(path, None) == path,
        rooted(home) != rooted(path) ==> shown_path(path, Some(home)) == path,
        parts_of(path).len() < parts_of(home).len() ==> shown_path(path, Some(home)) == path,
        (exists|i: int|
            0 <= i < parts_of(home).len() && i < parts_of(path).len() && parts_of(home)[i]
                != #[trigger] parts_of(path)[i]) ==> shown_path(path, Some(home)) == path,
        rooted(home) == rooted(path) && parts_of(home).len() <= parts_of(path).len()
            && parts_of(path).take(parts_of(home).len() as int) == parts_of(home) ==> shown_path(
            path,
            Some(home),
        ) == seq!['~', '/'] + text::join(
            parts_of(path).skip(parts_of(home).len() as int),
            seq!['/'],
        ),
{
    reveal_strlit("~/");
    reveal_strlit("/");
    assert("~/"@ =~= seq!['~', '/']);
    assert("/"@ =~= seq!['/']);
    if exists|i: int|
        0 <= i < parts_of(home).len() && i < parts_of(path).len() && parts_of(home)[i]
            != #[trigger] parts_of(path)[i] {
        let i = choose|i: int|
            0 <= i < parts_of(home).len() && i < parts_of(path).len() && parts_of(home)[i]
                != #[trigger] parts_of(path)[i];
        if parts_of(home).len() <= parts_of(path).len() {
            assert(parts_of(path).take(parts_of(home).len() as int)[i] == parts_of(path)[i]);
        }
    }
}

/// A part of a path is never empty, never the sign for the directory itself, and never holds
/// a slash.
pub proof fn parts_name_something(parts: Seq<Seq<char>>, i: int)
    requires
        0 <= i < named_parts(parts).len(),
    ensures
        named_parts(parts)[i].len() > 0,
        named_parts(parts)[i] != "."@,
        parts.contains(named_parts(parts)[i]),
    decreases parts.len(),
{
    let rest = named_parts(parts.drop_last());
    if i < rest.len() {
        parts_name_something(parts.drop_last(), i);
        let k = choose|k: int| 0 <= k < parts.len() - 1 && parts.drop_last()[k] == rest[i];
        assert(parts[k] == rest[i]);
    } else {
        assert(parts[parts.len() - 1] == named_parts(parts)[i]);
    }
}

/// A place lies in its directory under its name, with one slash between them.
pub proof fn places_lie_in_their_directory(directory: Seq<char>, name: Seq<char>)
    ensures
        text::begins_with(place_in(directory, name), directory),
        text::finishes_with(place_in(directory, name), name),
        place_in(directory, name).len() == directory.len() + name.len() + (if directory.len() > 0
            && directory.last() == '/' {
            0int
        } else {
            1int
        }),
        place_in(directory, name).len() > name.len() ==> place_in(directory, name)[place_in(
            directory,
            name,
        ).len() - name.len() - 1] == '/',
{
    reveal_strlit("/");
    let place = place_in(directory, name);
    assert(place.subrange(0, directory.len() as int) =~= directory);
    assert(place.subrange(place.len() - name.len(), place.len() as int) =~= name);
}

/// What a command printed is taken without the white space around it; nothing but white space
/// is nothing.
pub proof fn blank_output_is_nothing(words: Seq<char>)
    ensures
        printed(None) is None,
        printed(Some(words)) matches Some(kept) ==> kept.len() > 0 && kept == text::trim(words),
        text::trim(words).len() > 0 ==> printed(Some(words)) is Some,
{
}

} // verus!
