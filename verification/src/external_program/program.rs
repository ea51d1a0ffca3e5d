//! How an external program is launched: its path, the arguments put before
//! every run, the preset argument lists to choose from, and whether it runs
//! in its own directory. Spawning and talking to the process is left to
//! the caller.

use vstd::prelude::*;
use crate::util::text::push_char;

verus! {

/// Why a program could not be started, written to or read from.
#[derive(Debug, Clone, Copy, PartialEq, Eq, Structural)]
pub enum ProgramError {
    AlreadyRunning,
    NoPresetArguments,
    IndexOutOfBounds,
    NotRunning,
}

impl ProgramError {
    /// The message the error is reported with.
    pub open spec fn spec_message(&self) -> Seq<char> {
        match self {
            ProgramError::AlreadyRunning => "Program is already running"@,
            ProgramError::NoPresetArguments => "This program has no preset arguments"@,
            ProgramError::IndexOutOfBounds => "Index out of bounds of arguments set"@,
            ProgramError::NotRunning => "Program is not running"@,
        }
    }

    /// The message the error is reported with.
    pub fn message(&self) -> (m: &'static str)
        ensures
            m@ == self.spec_message(),
    {
        match self {
            ProgramError::AlreadyRunning => "Program is already running",
            ProgramError::NoPresetArguments => "This program has no preset arguments",
            ProgramError::IndexOutOfBounds => "Index out of bounds of arguments set",
            ProgramError::NotRunning => "Program is not running",
        }
    }
}

/// The texts of a list of strings.
pub open spec fn texts(v: Seq<String>) -> Seq<Seq<char>> {
    Seq::new(v.len(), |i: int| v[i]@)
}

/// The texts of a list of argument lists.
pub open spec fn text_lists(v: Seq<Vec<String>>) -> Seq<Seq<Seq<char>>> {
    Seq::new(v.len(), |i: int| texts(v[i]@))
}

/// The texts of an optional list of strings.
pub open spec fn optional_texts(o: Option<Vec<String>>) -> Option<Seq<Seq<char>>> {
    match o {
        Some(v) => Some(texts(v@)),
        None => None,
    }
}

/// The texts of an optional list of argument lists.
pub open spec fn optional_text_lists(o: Option<Vec<Vec<String>>>) -> Option<Seq<Seq<Seq<char>>>> {
    match o {
        Some(v) => Some(text_lists(v@)),
        None => None,
    }
}

/// The directory above a path (std's `Path::parent`), `None` for a root or
/// an empty path.
pub uninterp spec fn parent_path(path: Seq<char>) -> Option<Seq<char>>;

/// The directory above `path`, by `std::path::Path::parent`. The contract
/// claims only that the answer depends on the path alone; what it is, is
/// left to the name `parent_path`.
#[verifier::external_body]
fn path_parent(path: &str) -> (r: Option<String>)
    ensures
        match r {
            Some(p) => parent_path(path@) == Some(p@),
            None => parent_path(path@) is None,
        },
{
    match std::path::Path::new(path).parent() {
        Some(p) => Some(p.to_string_lossy().into_owned()),
        None => None,
    }
}

fn copy_texts(v: &Vec<String>) -> (r: Vec<String>)
    ensures
        texts(r@) == texts(v@),
{
    let mut r: Vec<String> = Vec::new();
    let mut i: usize = 0;
    while i < v.len()
        invariant
            i <= v@.len(),
            r@.len() == i,
            texts(r@) == texts(v@).take(i as int),
        decreases v@.len() - i,
    {
        let ghost before = r@;
        let c = v[i].clone();
        r.push(c);
        proof {
            assert forall|k: int| 0 <= k < i + 1 implies #[trigger] texts(r@)[k] == texts(v@).take(i + 1)[k] by {
                if k < i {
                    assert(r@[k] == before[k]);
                    assert(texts(before)[k] == texts(v@).take(i as int)[k]);
                }
            }
            assert(texts(r@) =~= texts(v@).take(i + 1));
        }
        i = i + 1;
    }
    proof {
        assert(texts(v@).take(i as int) =~= texts(v@));
    }
    r
}

/// How to launch an external program.
pub struct LaunchSpec {
    pub program: String,
    pub pre_args: Option<Vec<String>>,
    pub args_set: Option<Vec<Vec<String>>>,
    /// The process outlives the value that started it.
    pub standalone: bool,
    /// The process runs in the directory of its executable.
    pub preserve_working_dir: bool,
}

impl LaunchSpec {
    /// A command run through the shell: `cmd /C` on Windows, directly
    /// elsewhere.
    pub fn new_command(start_command: &str, windows: bool) -> (p: Self)
        ensures
            p.program@ == start_command@,
            optional_texts(p.pre_args) == if windows { Some(seq!["cmd"@, "/C"@]) } else { None::<Seq<Seq<char>>> },
            p.args_set is None,
            !p.standalone,
            !p.preserve_working_dir,
    {
        let pre_args = if windows {
            let mut v: Vec<String> = Vec::new();
            v.push(String::from_str("cmd"));
            v.push(String::from_str("/C"));
            assert(texts(v@) =~= seq!["cmd"@, "/C"@]);
            Some(v)
        } else {
            None
        };
        LaunchSpec {
            program: String::from_str(start_command),
            pre_args,
            args_set: None,
            standalone: false,
            preserve_working_dir: false,
        }
    }

    /// A tool at the given path under the tools' directory.
    pub fn new_external_tool(tool_path: String) -> (p: Self)
        ensures
            p.program == tool_path,
            p.pre_args is None,
            p.args_set is None,
            !p.standalone,
            !p.preserve_working_dir,
    {
        LaunchSpec { program: tool_path, pre_args: None, args_set: None, standalone: false, preserve_working_dir: false }
    }

    /// Lets the process outlive the value that started it.
    pub fn standalone(self) -> (p: Self)
        ensures
            p.standalone,
            p.program == self.program,
            p.pre_args == self.pre_args,
            p.args_set == self.args_set,
            p.preserve_working_dir == self.preserve_working_dir,
    {
        let mut p = self;
        p.standalone = true;
        p
    }

    /// Runs the process in the directory of its executable.
    pub fn preserve_working_dir(self) -> (p: Self)
        ensures
            p.preserve_working_dir,
            p.program == self.program,
            p.pre_args == self.pre_args,
            p.args_set == self.args_set,
            p.standalone == self.standalone,
    {
        let mut p = self;
        p.preserve_working_dir = true;
        p
    }

    /// Adds a preset argument list after the others.
    pub fn args(self, args: Vec<String>) -> (p: Self)
        ensures
            optional_text_lists(p.args_set) == Some(
                match optional_text_lists(self.args_set) {
                    Some(sets) => sets,
                    None => Seq::<Seq<Seq<char>>>::empty(),
                }.push(texts(args@)),
            ),
            p.program == self.program,
            p.pre_args == self.pre_args,
            p.standalone == self.standalone,
            p.preserve_working_dir == self.preserve_working_dir,
    {
        let LaunchSpec { program, pre_args, args_set, standalone, preserve_working_dir } = self;
        let ghost added = texts(args@);
        let sets = match args_set {
            Some(mut set) => {
                let ghost before = text_lists(set@);
                set.push(args);
                assert(text_lists(set@) =~= before.push(added));
                set
            },
            None => {
                let mut set: Vec<Vec<String>> = Vec::new();
                set.push(args);
                assert(text_lists(set@) =~= Seq::<Seq<Seq<char>>>::empty().push(added));
                set
            },
        };
        LaunchSpec { program, pre_args, args_set: Some(sets), standalone, preserve_working_dir }
    }

    /// Whether preset argument lists were given.
    pub fn has_args(&self) -> (r: bool)
        ensures
            r == self.args_set is Some,
    {
        self.args_set.is_some()
    }

    /// The arguments of a run: those put before every run, then the preset
    /// list chosen by `args_index`, if one is. A program that runs already,
    /// a choice without preset lists and a choice past their end are
    /// refused, in that order.
    pub fn launch_args(&self, running: bool, args_index: Option<usize>) -> (r: Result<Vec<String>, ProgramError>)
        ensures
            running ==> r == Err::<Vec<String>, ProgramError>(ProgramError::AlreadyRunning),
            !running && args_index is Some && self.args_set is None
                ==> r == Err::<Vec<String>, ProgramError>(ProgramError::NoPresetArguments),
            (!running && args_index is Some && self.args_set is Some
                && args_index->0 >= self.args_set->0@.len())
                ==> r == Err::<Vec<String>, ProgramError>(ProgramError::IndexOutOfBounds),
            r matches Ok(args) ==> texts(args@) == match optional_texts(self.pre_args) {
                Some(pre) => pre,
                None => Seq::<Seq<char>>::empty(),
            } + match (args_index, optional_text_lists(self.args_set)) {
                (Some(i), Some(sets)) => sets[i as int],
                _ => Seq::<Seq<char>>::empty(),
            },
            r is Ok <==> (!running && (args_index is Some ==> (self.args_set is Some
                && args_index->0 < self.args_set->0@.len()))),
    {
        if running {
            return Err(ProgramError::AlreadyRunning);
        }
        if args_index.is_some() && self.args_set.is_none() {
            return Err(ProgramError::NoPresetArguments);
        }
        let mut args: Vec<String> = match &self.pre_args {
            Some(pre) => copy_texts(pre),
            None => Vec::new(),
        };
        let ghost pre_texts = texts(args@);
        match args_index {
            Some(index) => {
                let sets = self.args_set.as_ref().unwrap();
                if index >= sets.len() {
                    return Err(ProgramError::IndexOutOfBounds);
                }
                let chosen = &sets[index];
                let mut i: usize = 0;
                while i < chosen.len()
                    invariant
                        i <= chosen@.len(),
                        args@.len() == pre_texts.len() + i,
                        texts(args@) == pre_texts + texts(chosen@).take(i as int),
                    decreases chosen@.len() - i,
                {
                    let ghost before = args@;
                    let c = chosen[i].clone();
                    args.push(c);
                    proof {
                        let goal = pre_texts + texts(chosen@).take(i + 1);
                        let prev = pre_texts + texts(chosen@).take(i as int);
                        assert forall|k: int| 0 <= k < goal.len() implies #[trigger] texts(args@)[k] == goal[k] by {
                            if k < goal.len() - 1 {
                                assert(args@[k] == before[k]);
                                assert(texts(before)[k] == prev[k]);
                            }
                        }
                        assert(texts(args@) =~= goal);
                    }
                    i = i + 1;
                }
                proof {
                    assert(texts(chosen@).take(i as int) =~= texts(chosen@));
                    assert(text_lists(sets@)[index as int] == texts(chosen@));
                }
            },
            None => {
                assert(texts(args@) =~= pre_texts + Seq::<Seq<char>>::empty());
            },
        }
        Ok(args)
    }

    /// The directory the process runs in, if it runs in its own: the one
    /// above the executable, or `.` where there is none.
    pub fn working_dir(&self) -> (r: Option<String>)
        ensures
            match r {
                Some(d) => self.preserve_working_dir && d@ == match parent_path(self.program@) {
                    Some(p) => p,
                    None => "."@,
                },
                None => !self.preserve_working_dir,
            },
    {
        if self.preserve_working_dir {
            match path_parent(self.program.as_str()) {
                Some(p) => Some(p),
                None => Some(String::from_str(".")),
            }
        } else {
            None
        }
    }
}

/// The text of a process's output read byte by byte, each byte taken as
/// the character with its code.
pub fn bytes_as_text(bytes: &[u8]) -> (s: String)
    ensures
        s@ == Seq::new(bytes@.len(), |i: int| bytes@[i] as char),
{
    let mut s = String::new();
    let mut i: usize = 0;
    while i < bytes.len()
        invariant
            i <= bytes@.len(),
            s@ == Seq::new(i as nat, |j: int| bytes@[j] as char),
        decreases bytes@.len() - i,
    {
        push_char(&mut s, bytes[i] as char);
        proof {
            assert(s@ =~= Seq::new((i + 1) as nat, |j: int| bytes@[j] as char));
        }
        i = i + 1;
    }
    s
}

} // verus!
