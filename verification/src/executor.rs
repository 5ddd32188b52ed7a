//! The container executor: which arguments it accepts, and how it finds the
//! program to launch in the container.

use crate::env::{EnvVars, entries_map};
use vstd::prelude::*;
use vstd::string::*;

verus! {

/// The container executor that runs the workload under this init.
#[derive(Clone, Copy, Debug)]
pub struct Crostini;

/// Why the executor refuses a container's process description.
#[derive(Clone, Copy, Debug, PartialEq, Eq, Structural)]
pub enum ValidationError {
    /// The process has no arguments, so there is nothing to run.
    NoArguments,
}

impl ValidationError {
    /// The text of the error.
    pub fn message(&self) -> (text: String)
        ensures
            text@ == "no arguments provided to execute"@,
    {
        String::from_str("no arguments provided to execute")
    }
}

/// Why the executor cannot launch the workload.
#[derive(Debug)]
pub enum ExecError {
    /// The process has no arguments.
    InvalidArg,
    /// No directory of the search path holds an executable `program`.
    NotFound { program: String },
}

/// The text of a `NotFound` error for `program`.
pub fn not_found_message(program: &String) -> (text: String)
    ensures
        text@ == program@ + " not found in PATH"@,
{
    let mut text = program.clone();
    text.append(" not found in PATH");
    text
}

/// Where the program to launch is.
#[derive(Debug)]
pub enum ProgramLookup {
    /// The program names a path (it holds a `/`): launch that path.
    Path(String),
    /// Launch the first of these candidates that is an executable file.
    Search(Vec<String>),
}

/// What the executor launches: `program` with `args`, found through `lookup`,
/// with `env` as its whole environment (nothing is inherited from the init).
#[derive(Debug)]
pub struct ExecPlan {
    pub program: String,
    pub args: Vec<String>,
    pub lookup: ProgramLookup,
    pub env: Vec<(String, String)>,
}

/// The workload's environment: the container's, or none if it was never set.
pub open spec fn workload_env(envs: Option<&EnvVars>) -> Map<Seq<char>, Seq<char>> {
    match envs {
        Some(e) => e@,
        None => Map::empty(),
    }
}

/// The process has a program to run.
pub open spec fn has_command(args: Option<&Vec<String>>) -> bool {
    args matches Some(a) && a@.len() > 0
}

/// The name of the search-path variable.
pub open spec fn path_key() -> Seq<char> {
    seq!['P', 'A', 'T', 'H']
}

/// The search path used when the container sets none.
pub open spec fn default_search_path() -> Seq<char> {
    seq!['/', 'b', 'i', 'n', ':', '/', 'u', 's', 'r', '/', 'b', 'i', 'n']
}

/// The search path: the container's `PATH`, else the default.
pub open spec fn search_path_of(envs: Option<&EnvVars>) -> Seq<char> {
    match envs {
        Some(e) => if e@.contains_key(path_key()) {
            e@[path_key()]
        } else {
            default_search_path()
        },
        None => default_search_path(),
    }
}

/// The fields of `s` between colons, empty fields included; there is one
/// more field than there are colons.
pub open spec fn colon_fields(s: Seq<char>) -> Seq<Seq<char>>
    decreases s.len(),
{
    if s.len() == 0 {
        seq![Seq::<char>::empty()]
    } else {
        let r = colon_fields(s.drop_last());
        if s.last() == ':' {
            r.push(Seq::<char>::empty())
        } else {
            r.update(r.len() - 1, r.last().push(s.last()))
        }
    }
}

/// The directory that a search-path field names: an empty field is the
/// current directory.
pub open spec fn search_dir(field: Seq<char>) -> Seq<char> {
    if field.len() == 0 {
        seq!['.']
    } else {
        field
    }
}

/// `name` inside the non-empty directory `dir`, with one `/` between them.
pub open spec fn join_path(dir: Seq<char>, name: Seq<char>) -> Seq<char> {
    if dir.last() == '/' {
        dir + name
    } else {
        dir + seq!['/'] + name
    }
}

/// The paths at which `program` is looked for, one per field of the search
/// path, in order.
pub open spec fn search_candidates(search_path: Seq<char>, program: Seq<char>) -> Seq<Seq<char>> {
    colon_fields(search_path).map_values(|field: Seq<char>| join_path(search_dir(field), program))
}

/// The views of a list of strings.
pub open spec fn views(strings: Seq<String>) -> Seq<Seq<char>> {
    strings.map_values(|s: String| s@)
}

/// Whether a file with this metadata may be launched: it is a regular file
/// and some execute permission bit is set.
pub fn is_launchable(is_file: bool, mode: u32) -> (launchable: bool)
    ensures
        launchable == (is_file && (mode & 0o111u32) != 0),
{
    is_file && (mode & 0o111u32) != 0
}

proof fn lemma_colon_fields_nonempty(s: Seq<char>)
    ensures
        colon_fields(s).len() >= 1,
    decreases s.len(),
{
    if s.len() > 0 {
        lemma_colon_fields_nonempty(s.drop_last());
    }
}

fn contains_char(s: &str, c: char) -> (found: bool)
    ensures
        found == s@.contains(c),
{
    let n = s.unicode_len();
    let mut i: usize = 0;
    while i < n
        invariant
            n == s@.len(),
            i <= n,
            forall|j: int| 0 <= j < i ==> s@[j] != c,
        decreases n - i,
    {
        if s.get_char(i) == c {
            return true;
        }
        i = i + 1;
    }
    false
}

fn split_colons(s: &str) -> (fields: Vec<String>)
    ensures
        views(fields@) == colon_fields(s@),
{
    let n = s.unicode_len();
    let mut fields: Vec<String> = Vec::new();
    let mut start: usize = 0;
    let mut i: usize = 0;
    assert(s@.take(0) =~= Seq::<char>::empty());
    assert(views(fields@) + seq![s@.subrange(0, 0)] =~= colon_fields(s@.take(0)));
    while i < n
        invariant
            n == s@.len(),
            start <= i <= n,
            views(fields@) + seq![s@.subrange(start as int, i as int)] == colon_fields(
                s@.take(i as int),
            ),
        decreases n - i,
    {
        let c = s.get_char(i);
        proof {
            assert(s@.take(i + 1).drop_last() =~= s@.take(i as int));
            assert(s@.take(i + 1).last() == c);
            lemma_colon_fields_nonempty(s@.take(i as int));
        }
        if c == ':' {
            let piece = String::from_str(s.substring_char(start, i));
            let ghost before = fields@;
            let ghost field = s@.subrange(start as int, i as int);
            assert(piece@ == field);
            fields.push(piece);
            start = i + 1;
            proof {
                assert(fields@ == before.push(piece));
                assert(views(fields@) =~= views(before).push(field));
                assert(s@.subrange(start as int, i + 1) =~= Seq::<char>::empty());
                assert(views(fields@) + seq![s@.subrange(start as int, i + 1)] =~= colon_fields(
                    s@.take(i + 1),
                ));
            }
        } else {
            proof {
                assert(s@.subrange(start as int, i + 1) =~= s@.subrange(start as int, i as int).push(
                    c,
                ));
                assert(views(fields@) + seq![s@.subrange(start as int, i + 1)] =~= colon_fields(
                    s@.take(i + 1),
                ));
            }
        }
        i = i + 1;
    }
    let last = String::from_str(s.substring_char(start, n));
    let ghost before = fields@;
    fields.push(last);
    assert(s@.take(n as int) =~= s@);
    assert(fields@ == before.push(last));
    assert(views(fields@) =~= views(before) + seq![s@.subrange(start as int, n as int)]);
    fields
}

fn join_dir(field: &str, name: &str) -> (path: String)
    ensures
        path@ == join_path(search_dir(field@), name@),
{
    proof {
        reveal_strlit(".");
        reveal_strlit("/");
    }
    let mut path = if field.is_empty() {
        String::from_str(".")
    } else {
        String::from_str(field)
    };
    let len = path.as_str().unicode_len();
    if path.as_str().get_char(len - 1) != '/' {
        path.append("/");
    }
    path.append(name);
    path
}

fn candidates_for(search_path: &str, program: &str) -> (candidates: Vec<String>)
    ensures
        views(candidates@) == search_candidates(search_path@, program@),
{
    let fields = split_colons(search_path);
    let mut candidates: Vec<String> = Vec::new();
    for i in 0..fields.len()
        invariant
            views(fields@) == colon_fields(search_path@),
            views(candidates@) =~= search_candidates(search_path@, program@).take(i as int),
    {
        let candidate = join_dir(fields[i].as_str(), program);
        let ghost before = candidates@;
        proof {
            assert(views(fields@).len() == fields@.len());
            assert(views(fields@)[i as int] == fields@[i as int]@);
            assert(candidate@ == search_candidates(search_path@, program@)[i as int]);
        }
        candidates.push(candidate);
        proof {
            assert(candidates@ == before.push(candidate));
            assert(views(candidates@) =~= views(before).push(candidate@));
        }
    }
    assert(search_candidates(search_path@, program@).take(fields@.len() as int)
        =~= search_candidates(search_path@, program@));
    candidates
}

fn copy_entries(entries: &Vec<(String, String)>) -> (copy: Vec<(String, String)>)
    ensures
        copy@ == entries@,
{
    let mut copy: Vec<(String, String)> = Vec::new();
    for i in 0..entries.len()
        invariant
            copy@ =~= entries@.take(i as int),
    {
        let key = entries[i].0.clone();
        let value = entries[i].1.clone();
        copy.push((key, value));
    }
    assert(entries@.take(entries@.len() as int) =~= entries@);
    copy
}

fn search_path(envs: Option<&EnvVars>) -> (path: String)
    ensures
        path@ == search_path_of(envs),
{
    proof {
        reveal_strlit("PATH");
        reveal_strlit("/bin:/usr/bin");
    }
    let key = String::from_str("PATH");
    assert(key@ == path_key());
    let default = String::from_str("/bin:/usr/bin");
    assert(default@ == default_search_path());
    match envs {
        Some(e) => match e.get(&key) {
            Some(value) => value,
            None => default,
        },
        None => default,
    }
}

impl Crostini {
    /// Accepts a process description only if it has arguments.
    pub fn validate(&self, args: Option<&Vec<String>>) -> (result: Result<(), ValidationError>)
        ensures
            result is Ok <==> has_command(args),
            result is Ok <==> (args matches Some(a) && a@.len() > 0),
    {
        match args {
            Some(a) => if a.len() > 0 {
                Ok(())
            } else {
                Err(ValidationError::NoArguments)
            },
            None => Err(ValidationError::NoArguments),
        }
    }

    /// What to launch for a process with `args`, in a container with the
    /// environment `envs`: the first argument is the program, the others its
    /// arguments. A program that holds a `/` is a path; any other is looked
    /// for in each directory of the search path.
    pub fn plan_exec(&self, args: Option<&Vec<String>>, envs: Option<&EnvVars>) -> (result: Result<
        ExecPlan,
        ExecError,
    >)
        ensures
            result is Err <==> !has_command(args),
            result is Err <==> !(args matches Some(a) && a@.len() > 0),
            result matches Ok(plan) ==> (envs matches Some(e) ==> entries_map(plan.env@) == e@),
            result matches Ok(plan) ==> (envs is None ==> plan.env@.len() == 0),
            result matches Err(e) ==> e is InvalidArg,
            result matches Ok(plan) ==> {
                let a = args->0@;
                &&& plan.program == a[0]
                &&& plan.args@ == a.skip(1)
                &&& entries_map(plan.env@) == workload_env(envs)
                &&& a[0]@.contains('/') ==> plan.lookup == ProgramLookup::Path(plan.program)
                &&& !a[0]@.contains('/') ==> (plan.lookup matches ProgramLookup::Search(c)
                    && views(c@) == search_candidates(search_path_of(envs), plan.program@))
            },
    {
        let a = match args {
            Some(a) => a,
            None => return Err(ExecError::InvalidArg),
        };
        if a.len() == 0 {
            return Err(ExecError::InvalidArg);
        }
        let program = a[0].clone();
        let mut rest: Vec<String> = Vec::new();
        for i in 1..a.len()
            invariant
                rest@ =~= a@.subrange(1, i as int),
        {
            rest.push(a[i].clone());
        }
        assert(rest@ =~= a@.skip(1));
        let lookup = if contains_char(program.as_str(), '/') {
            ProgramLookup::Path(program.clone())
        } else {
            let path = search_path(envs);
            ProgramLookup::Search(candidates_for(path.as_str(), program.as_str()))
        };
        let env = match envs {
            Some(e) => copy_entries(e.entries()),
            None => Vec::new(),
        };
        Ok(ExecPlan { program, args: rest, lookup, env })
    }

    /// The program to launch for `plan`, where `launchable[i]` says whether
    /// the `i`-th search candidate is an executable file (a missing entry
    /// counts as not).
    pub fn choose_program(&self, plan: &ExecPlan, launchable: &Vec<bool>) -> (result: Result<
        String,
        ExecError,
    >)
        ensures
            plan.lookup matches ProgramLookup::Path(p) ==> result == Ok::<String, ExecError>(p),
            plan.lookup matches ProgramLookup::Search(c) ==> match result {
                Ok(path) => exists|i: int|
                    0 <= i < c@.len() && i < launchable@.len() && launchable@[i] && path == c@[i]
                        && forall|j: int| 0 <= j < i && j < launchable@.len() ==> !launchable@[j],
                Err(e) => (e matches ExecError::NotFound { program } && program == plan.program)
                    && forall|i: int| 0 <= i < c@.len() && i < launchable@.len() ==> !launchable@[i],
            },
    {
        match &plan.lookup {
            ProgramLookup::Path(p) => Ok(p.clone()),
            ProgramLookup::Search(c) => {
                let mut i: usize = 0;
                while i < c.len()
                    invariant
                        plan.lookup == ProgramLookup::Search(*c),
                        i <= c@.len(),
                        forall|j: int| 0 <= j < i && j < launchable@.len() ==> !launchable@[j],
                    decreases c@.len() - i,
                {
                    if i < launchable.len() && launchable[i] {
                        let path = c[i].clone();
                        assert(path == c@[i as int]);
                        return Ok(path);
                    }
                    i = i + 1;
                }
                Err(ExecError::NotFound { program: plan.program.clone() })
            },
        }
    }
}

} // verus!
