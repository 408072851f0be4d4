//! Finding the executable to trace, and what it is started with.

use crate::error::TreiceError;
use crate::text::{joined, views};
use vstd::prelude::*;
use vstd::string::{StrSliceExecFns, StringExecFns};

verus! {

/// The parts of a text between the occurrences of a separator, in order. A
/// text with `n` separators has `n + 1` parts, some of which may be empty.
pub open spec fn split(text: Seq<char>, separator: char) -> Seq<Seq<char>>
    decreases text.len(),
{
    if text.len() == 0 {
        seq![Seq::empty()]
    } else {
        let before = split(text.drop_last(), separator);
        if text.last() == separator {
            before.push(Seq::empty())
        } else {
            before.drop_last().push(before.last().push(text.last()))
        }
    }
}

/// Splitting loses nothing and leaves no separator behind: there is at least
/// one part, no part holds the separator, and the parts joined with the
/// separator are the text.
pub proof fn lemma_split_joins_back(text: Seq<char>, separator: char)
    ensures
        split(text, separator).len() >= 1,
        forall|i: int, k: int|
            0 <= i < split(text, separator).len() && 0 <= k < split(text, separator)[i].len()
                ==> #[trigger] split(text, separator)[i][k] != separator,
        joined(split(text, separator), seq![separator]) == text,
    decreases text.len(),
{
    let parts = split(text, separator);
    let glue = seq![separator];
    if text.len() == 0 {
        assert(joined(parts, glue) =~= text);
    } else {
        let shorter = text.drop_last();
        let before = split(shorter, separator);
        lemma_split_joins_back(shorter, separator);
        if text.last() == separator {
            assert(parts.drop_last() =~= before);
            assert(joined(parts, glue) =~= joined(before, glue) + glue + Seq::<char>::empty());
            assert(joined(parts, glue) =~= text);
        } else {
            let grown = before.last().push(text.last());
            assert(parts.last() == grown);
            if before.len() == 1 {
                assert(joined(before, glue) == before[0]);
                assert(joined(parts, glue) =~= text);
            } else {
                assert(parts.drop_last() =~= before.drop_last());
                assert(joined(parts, glue) =~= (joined(before.drop_last(), glue) + glue
                    + before.last()).push(text.last()));
                assert(joined(parts, glue) =~= text);
            }
        }
    }
}

/// Splits a text at each occurrence of a separator.
pub fn split_text(text: &str, separator: char) -> (parts: Vec<String>)
    ensures
        views(parts@) == split(text@, separator),
{
    let mut parts: Vec<String> = Vec::new();
    let len: usize = text.unicode_len();
    let mut start: usize = 0;
    let mut i: usize = 0;
    assert(text@.take(0) =~= Seq::<char>::empty());
    assert(views(parts@).push(text@.subrange(0, 0)) =~= split(text@.take(0), separator));
    for c in it: text.chars()
        invariant
            it.seq() == text@,
            i == it.index(),
            start <= i <= len == text@.len(),
            views(parts@).push(text@.subrange(start as int, i as int)) == split(
                text@.take(i as int),
                separator,
            ),
    {
        let ghost shorter = text@.take(i as int);
        let ghost longer = text@.take(i + 1);
        assert(longer.drop_last() =~= shorter);
        assert(longer.last() == c);
        let ghost done = views(parts@);
        let ghost current = text@.subrange(start as int, i as int);
        assert(done.push(current).drop_last() =~= done);
        if c == separator {
            let part: String = text.substring_char(start, i).to_owned();
            parts.push(part);
            start = i + 1;
            assert(views(parts@) =~= done.push(current));
            assert(text@.subrange(start as int, i + 1) =~= Seq::<char>::empty());
        } else {
            assert(text@.subrange(start as int, i + 1) =~= current.push(c));
        }
        i = i + 1;
    }
    assert(text@.take(len as int) =~= text@);
    let ghost done = views(parts@);
    let part: String = text.substring_char(start, i).to_owned();
    parts.push(part);
    assert(views(parts@) =~= done.push(text@.subrange(start as int, i as int)));
    parts
}

/// Whether a path starts at the root of the file system.
pub open spec fn is_absolute(path: Seq<char>) -> bool {
    path.len() > 0 && path[0] == '/'
}

/// The path that results when `path` is pushed onto the directory `dir`: an
/// absolute `path` takes the place of `dir`; else `path` follows `dir`, after
/// a `/` unless `dir` is empty or ends in one.
pub open spec fn pushed(dir: Seq<char>, path: Seq<char>) -> Seq<char> {
    if is_absolute(path) {
        path
    } else if dir.len() == 0 || dir.last() == '/' {
        dir + path
    } else {
        dir + seq!['/'] + path
    }
}

/// The places at which an executable is looked for along a search path: the
/// executable pushed onto each directory that the search path names between
/// its colons, in their order.
pub open spec fn lookup_paths(executable: Seq<char>, search_path: Seq<char>) -> Seq<Seq<char>> {
    let dirs = split(search_path, ':');
    Seq::new(dirs.len(), |i: int| pushed(dirs[i], executable))
}

/// The places at which an executable is looked for, in the order in which
/// they are tried: the executable itself if it is an absolute path, then the
/// places along the search path, if there is one.
pub open spec fn candidates(executable: Seq<char>, search_path: Option<Seq<char>>) -> Seq<
    Seq<char>,
> {
    let own = if is_absolute(executable) {
        seq![executable]
    } else {
        Seq::empty()
    };
    match search_path {
        Some(dirs) => own + lookup_paths(executable, dirs),
        None => own,
    }
}

/// Whether the candidate with the given index was found to exist. A
/// candidate for which nothing is said was not.
pub open spec fn is_present(present: Seq<bool>, index: int) -> bool {
    0 <= index < present.len() && present[index]
}

/// The view of a search path that may be missing.
pub open spec fn search_path_view(search_path: Option<String>) -> Option<Seq<char>> {
    match search_path {
        Some(dirs) => Some(dirs@),
        None => None,
    }
}

/// Whether a path starts at the root of the file system.
pub fn path_is_absolute(path: &str) -> (absolute: bool)
    ensures
        absolute == is_absolute(path@),
{
    !path.is_empty() && path.get_char(0) == '/'
}

/// Pushes `path` onto the directory `dir`.
pub fn push_path(dir: &str, path: &str) -> (joined: String)
    ensures
        joined@ == pushed(dir@, path@),
{
    if path_is_absolute(path) {
        return path.to_owned();
    }
    let len: usize = dir.unicode_len();
    let mut joined: String = dir.to_owned();
    if len > 0 && dir.get_char(len - 1) != '/' {
        proof {
            reveal_strlit("/");
        }
        joined.append("/");
    }
    joined.append(path);
    assert(joined@ =~= pushed(dir@, path@));
    joined
}

/// The places at which an executable is looked for, in the order in which
/// they are tried.
pub fn candidate_paths(executable_path: &String, search_path: &Option<String>) -> (paths: Vec<
    String,
>)
    ensures
        views(paths@) == candidates(executable_path@, search_path_view(*search_path)),
{
    let mut paths: Vec<String> = Vec::new();
    if path_is_absolute(executable_path.as_str()) {
        paths.push(executable_path.clone());
    }
    let ghost own = views(paths@);
    assert(own =~= if is_absolute(executable_path@) {
        seq![executable_path@]
    } else {
        Seq::empty()
    });
    match search_path {
        Some(dirs) => {
            let parts: Vec<String> = split_text(dirs.as_str(), ':');
            let mut i: usize = 0;
            while i < parts.len()
                invariant
                    i <= parts.len(),
                    views(parts@) == split(dirs@, ':'),
                    views(paths@) == own + lookup_paths(executable_path@, dirs@).take(i as int),
                decreases parts.len() - i,
            {
                let ghost before = views(paths@);
                assert(views(parts@)[i as int] == parts@[i as int]@);
                let place: String = push_path(parts[i].as_str(), executable_path.as_str());
                paths.push(place);
                assert(views(paths@) =~= before.push(place@));
                assert(views(paths@) =~= own + lookup_paths(executable_path@, dirs@).take(i + 1));
                i = i + 1;
            }
            assert(lookup_paths(executable_path@, dirs@).take(i as int) =~= lookup_paths(
                executable_path@,
                dirs@,
            ));
        },
        None => {},
    }
    paths
}

/// The first place at which the executable was found. `present` says of the
/// places that `candidate_paths` gives, in their order, which of them exist.
pub fn find_absolute_executable_path(
    executable_path: &String,
    search_path: &Option<String>,
    present: &Vec<bool>,
) -> (found: Option<String>)
    ensures
        match found {
            Some(path) => exists|i: int|
                {
                    &&& 0 <= i < candidates(
                        executable_path@,
                        search_path_view(*search_path),
                    ).len()
                    &&& #[trigger] is_present(present@, i)
                    &&& path@ == candidates(executable_path@, search_path_view(*search_path))[i]
                    &&& forall|j: int| 0 <= j < i ==> !#[trigger] is_present(present@, j)
                },
            None => forall|i: int|
                0 <= i < candidates(executable_path@, search_path_view(*search_path)).len()
                    ==> !#[trigger] is_present(present@, i),
        },
{
    let paths: Vec<String> = candidate_paths(executable_path, search_path);
    let ghost places = candidates(executable_path@, search_path_view(*search_path));
    assert(views(paths@).len() == paths.len());
    let mut i: usize = 0;
    while i < paths.len()
        invariant
            i <= paths.len(),
            views(paths@) == places,
            places == candidates(executable_path@, search_path_view(*search_path)),
            forall|j: int| 0 <= j < i ==> !#[trigger] is_present(present@, j),
        decreases paths.len() - i,
    {
        if i < present.len() && present[i] {
            let path: String = paths[i].clone();
            proof {
                let at = i as int;
                assert(is_present(present@, at));
                assert(views(paths@)[at] == paths@[at]@);
                assert(path@ == places[at]);
                assert(0 <= at < places.len());
            }
            return Some(path);
        }
        i = i + 1;
    }
    None
}

/// The executable that the command line names: its second word.
pub fn executable_argument(args: &Vec<String>) -> (named: Result<&String, TreiceError>)
    ensures
        match named {
            Ok(path) => args.len() >= 2 && *path == args@[1],
            Err(error) => args.len() < 2 && error == TreiceError::NoExecutableProvided,
        },
{
    if args.len() < 2 {
        Err(TreiceError::NoExecutableProvided)
    } else {
        Ok(&args[1])
    }
}

/// The executable to trace, looked for where `candidate_paths` says. `args`
/// is the command line of the tracer; `present` says of the places at which
/// the executable that it names is looked for which of them exist.
pub fn get_executable_path_from_args(
    args: &Vec<String>,
    search_path: &Option<String>,
    present: &Vec<bool>,
) -> (found: Result<String, TreiceError>)
    ensures
        args.len() < 2 ==> found == Err::<String, TreiceError>(TreiceError::NoExecutableProvided),
        args.len() >= 2 ==> match found {
            Ok(path) => exists|i: int|
                {
                    &&& 0 <= i < candidates(args@[1]@, search_path_view(*search_path)).len()
                    &&& #[trigger] is_present(present@, i)
                    &&& path@ == candidates(args@[1]@, search_path_view(*search_path))[i]
                    &&& forall|j: int| 0 <= j < i ==> !#[trigger] is_present(present@, j)
                },
            Err(error) => {
                &&& error == TreiceError::ExecutableNotFound
                &&& forall|i: int|
                    0 <= i < candidates(args@[1]@, search_path_view(*search_path)).len()
                        ==> !#[trigger] is_present(present@, i)
            },
        },
{
    match executable_argument(args) {
        Err(error) => Err(error),
        Ok(named) => match find_absolute_executable_path(named, search_path, present) {
            Some(path) => Ok(path),
            None => Err(TreiceError::ExecutableNotFound),
        },
    }
}

/// What the tracee is started with: the executable, the words of its
/// command line and its environment.
#[derive(Debug)]
pub struct ExecRequest {
    /// The path of the executable.
    pub path: String,
    /// The words of the command line, the executable first.
    pub arguments: Vec<String>,
    /// The environment, one `KEY=VALUE` entry for each variable.
    pub environment: Vec<String>,
}

/// Whether a text holds a NUL character, which no text that is handed to the
/// operating system may hold.
pub open spec fn has_nul(text: Seq<char>) -> bool {
    exists|i: int| 0 <= i < text.len() && text[i] == '\0'
}

/// The words of the tracer's command line that are handed on to the tracee:
/// those after the tracer's own name and the executable.
pub open spec fn forwarded(args: Seq<Seq<char>>) -> Seq<Seq<char>> {
    if args.len() > 2 {
        args.skip(2)
    } else {
        Seq::empty()
    }
}

/// The command line of the tracee: the executable, then the words that are
/// handed on.
pub open spec fn argument_vector(executable: Seq<char>, args: Seq<Seq<char>>) -> Seq<Seq<char>> {
    seq![executable] + forwarded(args)
}

/// The entry of the environment for one variable.
pub open spec fn entry_text(key: Seq<char>, value: Seq<char>) -> Seq<char> {
    key + seq!['='] + value
}

/// The views of the variables of an environment.
pub open spec fn variables_view(variables: Seq<(String, String)>) -> Seq<(Seq<char>, Seq<char>)> {
    Seq::new(variables.len(), |i: int| (variables[i].0@, variables[i].1@))
}

/// The environment of the tracee: the entries of the variables in their
/// order, without those that hold a NUL character.
pub open spec fn environment_vector(variables: Seq<(Seq<char>, Seq<char>)>) -> Seq<Seq<char>>
    decreases variables.len(),
{
    if variables.len() == 0 {
        Seq::empty()
    } else {
        let before = environment_vector(variables.drop_last());
        let entry = entry_text(variables.last().0, variables.last().1);
        if has_nul(entry) {
            before
        } else {
            before.push(entry)
        }
    }
}

/// Whether a text holds a NUL character.
pub fn contains_nul(text: &str) -> (found: bool)
    ensures
        found == has_nul(text@),
{
    let mut found: bool = false;
    for c in it: text.chars()
        invariant
            it.seq() == text@,
            found == (exists|k: int| 0 <= k < it.index() && text@[k] == '\0'),
    {
        if c == '\0' {
            found = true;
        }
    }
    found
}

/// The command line of the tracee. `args` is the command line of the tracer.
pub fn tracee_arguments(executable_path: &String, args: &Vec<String>) -> (arguments: Vec<String>)
    ensures
        views(arguments@) == argument_vector(executable_path@, views(args@)),
{
    let mut arguments: Vec<String> = Vec::new();
    arguments.push(executable_path.clone());
    let mut i: usize = 2;
    while i < args.len()
        invariant
            2 <= i,
            i <= args.len() || i == 2,
            views(arguments@) == seq![executable_path@] + forwarded(views(args@)).take(i - 2),
        decreases args.len() - i,
    {
        let ghost before = views(arguments@);
        arguments.push(args[i].clone());
        assert(views(arguments@) =~= before.push(args@[i as int]@));
        assert(forwarded(views(args@))[i - 2] == args@[i as int]@);
        assert(views(arguments@) =~= seq![executable_path@] + forwarded(views(args@)).take(
            i - 1,
        ));
        i = i + 1;
    }
    assert(forwarded(views(args@)).take(i - 2) =~= forwarded(views(args@)));
    arguments
}

/// The entry of the environment for one variable.
pub fn environment_entry(key: &String, value: &String) -> (entry: String)
    ensures
        entry@ == entry_text(key@, value@),
{
    proof {
        reveal_strlit("=");
    }
    let mut entry: String = key.clone();
    entry.append("=");
    entry.append(value.as_str());
    assert(entry@ =~= entry_text(key@, value@));
    entry
}

/// The environment of the tracee, made of the variables of the tracer.
pub fn tracee_environment(variables: &Vec<(String, String)>) -> (environment: Vec<String>)
    ensures
        views(environment@) == environment_vector(variables_view(variables@)),
{
    let mut environment: Vec<String> = Vec::new();
    let mut i: usize = 0;
    assert(variables_view(variables@).take(0) =~= Seq::empty());
    while i < variables.len()
        invariant
            i <= variables.len(),
            views(environment@) == environment_vector(variables_view(variables@).take(i as int)),
        decreases variables.len() - i,
    {
        let ghost before = views(environment@);
        let ghost shorter = variables_view(variables@).take(i as int);
        let ghost longer = variables_view(variables@).take(i + 1);
        assert(longer.drop_last() =~= shorter);
        assert(longer.last() == (variables@[i as int].0@, variables@[i as int].1@));
        let entry: String = environment_entry(&variables[i].0, &variables[i].1);
        if !contains_nul(entry.as_str()) {
            environment.push(entry);
            assert(views(environment@) =~= before.push(entry@));
        }
        i = i + 1;
    }
    assert(variables_view(variables@).take(variables.len() as int) =~= variables_view(
        variables@,
    ));
    environment
}

/// Whether one of the texts holds a NUL character.
pub open spec fn any_has_nul(texts: Seq<Seq<char>>) -> bool {
    exists|i: int| 0 <= i < texts.len() && has_nul(#[trigger] texts[i])
}

/// What the tracee is started with, or `None` where the executable or a word
/// of its command line holds a NUL character and so cannot be handed to the
/// operating system. `args` is the command line of the tracer, `variables`
/// its environment.
pub fn exec_request(
    executable_path: &String,
    args: &Vec<String>,
    variables: &Vec<(String, String)>,
) -> (request: Option<ExecRequest>)
    ensures
        match request {
            Some(start) => {
                &&& !any_has_nul(argument_vector(executable_path@, views(args@)))
                &&& start.path@ == executable_path@
                &&& views(start.arguments@) == argument_vector(executable_path@, views(args@))
                &&& views(start.environment@) == environment_vector(variables_view(variables@))
            },
            None => any_has_nul(argument_vector(executable_path@, views(args@))),
        },
{
    let arguments: Vec<String> = tracee_arguments(executable_path, args);
    let mut i: usize = 0;
    while i < arguments.len()
        invariant
            i <= arguments.len(),
            views(arguments@) == argument_vector(executable_path@, views(args@)),
            forall|k: int| 0 <= k < i ==> !has_nul(#[trigger] views(arguments@)[k]),
        decreases arguments.len() - i,
    {
        assert(views(arguments@)[i as int] == arguments@[i as int]@);
        if contains_nul(arguments[i].as_str()) {
            return None;
        }
        i = i + 1;
    }
    let environment: Vec<String> = tracee_environment(variables);
    Some(ExecRequest { path: executable_path.clone(), arguments, environment })
}

} // verus!
