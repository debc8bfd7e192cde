//! Shell commands described as plain values: a command builder, pipe chains,
//! and the plan by which a pipe chain's processes are wired together. Running
//! them is left to the caller.
use vstd::prelude::*;
use vstd::string::StringExecFns;

verus! {

/// A command described by its program, arguments, working directory and
/// extra environment variables, each set in order.
pub struct CommandBuilder {
    program: String,
    args: Vec<String>,
    dir: Option<String>,
    envs: Vec<(String, String)>,
}

/// A chain of commands whose output feeds the next one's input.
pub struct PipeBuilder {
    commands: Vec<(String, Vec<String>)>,
}

/// A command, with its strings taken by their characters.
pub struct SpecCommand {
    pub program: Seq<char>,
    pub args: Seq<Seq<char>>,
    pub dir: Option<Seq<char>>,
    pub envs: Seq<(Seq<char>, Seq<char>)>,
}

/// The characters of each key and value of a list of pairs.
pub open spec fn pair_views(pairs: Seq<(String, String)>) -> Seq<(Seq<char>, Seq<char>)> {
    pairs.map_values(|p: (String, String)| (p.0@, p.1@))
}

/// The program and arguments of each stage of a pipe chain.
pub open spec fn stage_views(stages: Seq<(String, Vec<String>)>) -> Seq<(Seq<char>, Seq<Seq<char>>)> {
    stages.map_values(|s: (String, Vec<String>)| (s.0@, s.1.deep_view()))
}

/// The characters of each string slice.
pub open spec fn str_views(s: Seq<&str>) -> Seq<Seq<char>> {
    s.map_values(|x: &str| x@)
}

impl View for CommandBuilder {
    type V = SpecCommand;

    closed spec fn view(&self) -> SpecCommand {
        SpecCommand {
            program: self.program@,
            args: self.args.deep_view(),
            dir: match self.dir {
                Some(d) => Some(d@),
                None => None,
            },
            envs: pair_views(self.envs@),
        }
    }
}

impl View for PipeBuilder {
    type V = Seq<(Seq<char>, Seq<Seq<char>>)>;

    closed spec fn view(&self) -> Seq<(Seq<char>, Seq<Seq<char>>)> {
        stage_views(self.commands@)
    }
}

/// Copies string slices into owned strings.
fn to_strings(items: &[&str]) -> (r: Vec<String>)
    ensures
        r.deep_view() == str_views(items@),
{
    let mut out: Vec<String> = Vec::new();
    let mut i: usize = 0;
    while i < items.len()
        invariant
            i <= items@.len(),
            out@.len() == i,
            forall|k: int| 0 <= k < i ==> (#[trigger] out@[k])@ == items@[k]@,
        decreases items@.len() - i,
    {
        out.push(items[i].to_owned());
        i = i + 1;
    }
    assert(out.deep_view() =~= str_views(items@));
    out
}

/// Starts describing a command that runs `program`.
pub fn cmd(program: &str) -> (r: CommandBuilder)
    ensures
        r@ == (SpecCommand { program: program@, args: Seq::empty(), dir: None, envs: Seq::empty() }),
{
    let r = CommandBuilder { program: program.to_owned(), args: Vec::new(), dir: None, envs: Vec::new() };
    assert(r@.args =~= Seq::<Seq<char>>::empty());
    assert(r@.envs =~= Seq::<(Seq<char>, Seq<char>)>::empty());
    r
}

/// The command that runs `command` through the platform shell: `cmd /C` on
/// Windows, `sh -c` elsewhere.
pub fn shell_command(command: &str, windows: bool) -> (r: CommandBuilder)
    ensures
        windows ==> r@ == (SpecCommand { program: "cmd"@, args: seq!["/C"@, command@], dir: None, envs: Seq::empty() }),
        !windows ==> r@ == (SpecCommand { program: "sh"@, args: seq!["-c"@, command@], dir: None, envs: Seq::empty() }),
{
    let flag = if windows { "/C" } else { "-c" };
    let words = [flag, command];
    let r = cmd(if windows { "cmd" } else { "sh" }).args(words);
    assert(str_views(words@) =~= seq![flag@, command@]);
    assert(r@.args =~= seq![flag@, command@]);
    r
}

impl CommandBuilder {
    /// The program to run.
    pub fn program(&self) -> (r: &str)
        ensures
            r@ == self@.program,
    {
        self.program.as_str()
    }

    /// The arguments, in order.
    pub fn get_args(&self) -> (r: &Vec<String>)
        ensures
            r.deep_view() == self@.args,
    {
        &self.args
    }

    /// The working directory, if one was set.
    pub fn get_dir(&self) -> (r: &Option<String>)
        ensures
            match r {
                Some(d) => self@.dir == Some(d@),
                None => self@.dir is None,
            },
    {
        &self.dir
    }

    /// The environment variables to set, in the order they were given.
    pub fn get_envs(&self) -> (r: &Vec<(String, String)>)
        ensures
            pair_views(r@) == self@.envs,
    {
        &self.envs
    }

    /// Adds an argument.
    pub fn arg(self, arg: &str) -> (r: CommandBuilder)
        ensures
            r@ == (SpecCommand { args: self@.args.push(arg@), ..self@ }),
    {
        let mut b = self;
        let ghost before = b.args.deep_view();
        b.args.push(arg.to_owned());
        assert(b.args.deep_view() =~= before.push(arg@));
        b
    }

    /// Adds several arguments, in order.
    pub fn args<const N: usize>(self, args: [&str; N]) -> (r: CommandBuilder)
        ensures
            r@ == (SpecCommand { args: self@.args + str_views(args@), ..self@ }),
    {
        let mut b = self;
        let ghost before = b.args.deep_view();
        let mut i: usize = 0;
        while i < N
            invariant
                i <= N,
                N == args@.len(),
                b.args.deep_view() == before + str_views(args@.take(i as int)),
                b.program == self.program,
                b.dir == self.dir,
                b.envs == self.envs,
            decreases N - i,
        {
            let ghost mid = b.args.deep_view();
            b.args.push(args[i].to_owned());
            assert(b.args.deep_view() =~= mid.push(args@[i as int]@));
            assert(str_views(args@.take(i + 1)) =~= str_views(args@.take(i as int)).push(args@[i as int]@));
            i = i + 1;
        }
        assert(args@.take(N as int) =~= args@);
        b
    }

    /// Sets the working directory.
    pub fn dir(self, dir: &str) -> (r: CommandBuilder)
        ensures
            r@ == (SpecCommand { dir: Some(dir@), ..self@ }),
    {
        let mut b = self;
        b.dir = Some(dir.to_owned());
        b
    }

    /// Sets an environment variable; a later setting of the same key wins.
    pub fn env(self, key: &str, val: &str) -> (r: CommandBuilder)
        ensures
            r@ == (SpecCommand { envs: self@.envs.push((key@, val@)), ..self@ }),
    {
        let mut b = self;
        let ghost before = b.envs@;
        b.envs.push((key.to_owned(), val.to_owned()));
        assert(pair_views(b.envs@) =~= pair_views(before).push((key@, val@)));
        b
    }

    /// Starts a pipe chain: this command's program and arguments, then
    /// `program` with `args`. The working directory and environment of this
    /// command are not carried into the chain.
    pub fn pipe(self, program: &str, args: &[&str]) -> (r: PipeBuilder)
        ensures
            r@ == seq![(self@.program, self@.args), (program@, str_views(args@))],
    {
        let second = to_strings(args);
        let mut commands: Vec<(String, Vec<String>)> = Vec::new();
        commands.push((self.program, self.args));
        commands.push((program.to_owned(), second));
        let r = PipeBuilder { commands };
        assert(r@ =~= seq![(self@.program, self@.args), (program@, str_views(args@))]);
        r
    }
}

/// Where a process of a pipe chain reads its input.
#[derive(Debug, Clone, Copy, PartialEq, Eq)]
pub enum StdinSource {
    /// The caller's own standard input.
    Inherit,
    /// The output of the previous stage.
    PreviousStage,
}

/// Where a process of a pipe chain writes an output stream.
#[derive(Debug, Clone, Copy, PartialEq, Eq)]
pub enum OutputTarget {
    /// Captured through a pipe.
    Piped,
    /// The caller's own stream.
    Inherit,
}

/// How one process of a pipe chain is started.
#[derive(Debug, Clone, PartialEq, Eq)]
pub struct PipeStage {
    pub program: String,
    pub args: Vec<String>,
    pub stdin: StdinSource,
    pub stdout: OutputTarget,
    pub stderr: OutputTarget,
    /// Whether the caller waits for this process (the last one) and reads its status.
    pub last: bool,
}

/// How stage `i` of `n` is wired: the first reads the caller's input, every
/// other one the previous output; all but the last pipe their output on. The
/// last one pipes its output too when the chain's output is captured, and
/// otherwise writes to the caller's streams.
pub open spec fn stage_wiring(i: int, n: int, capture: bool) -> (StdinSource, OutputTarget, OutputTarget) {
    let stdin = if i == 0 { StdinSource::Inherit } else { StdinSource::PreviousStage };
    if i < n - 1 {
        (stdin, OutputTarget::Piped, if capture { OutputTarget::Piped } else { OutputTarget::Inherit })
    } else if capture {
        (stdin, OutputTarget::Piped, OutputTarget::Piped)
    } else {
        (stdin, OutputTarget::Inherit, OutputTarget::Inherit)
    }
}

/// Every stage of a chain after the first, the last included, reads the
/// previous stage's output and only the first reads the caller's input;
/// every stage but the last sends its output on; the last one's output goes
/// to the caller when it is captured and to the caller's streams otherwise.
pub proof fn lemma_stages_read_previous_output(n: int, capture: bool)
    requires
        n >= 2,
    ensures
        stage_wiring(0, n, capture).0 == StdinSource::Inherit,
        forall|i: int| 0 < i < n ==> (#[trigger] stage_wiring(i, n, capture)).0 == StdinSource::PreviousStage,
        forall|i: int| 0 <= i < n - 1 ==> (#[trigger] stage_wiring(i, n, capture)).1 == OutputTarget::Piped,
        stage_wiring(n - 1, n, capture).1 == (if capture { OutputTarget::Piped } else { OutputTarget::Inherit }),
{
}

impl PipeBuilder {
    /// A chain always holds at least two commands.
    #[verifier::type_invariant]
    spec fn wf(&self) -> bool {
        self.commands@.len() >= 2
    }

    /// Adds another command to the end of the chain.
    pub fn pipe(self, program: &str, args: &[&str]) -> (r: PipeBuilder)
        ensures
            r@ == self@.push((program@, str_views(args@))),
    {
        proof {
            use_type_invariant(&self);
        }
        let ghost before = self.commands@;
        let a = to_strings(args);
        let mut commands = self.commands;
        commands.push((program.to_owned(), a));
        assert(stage_views(commands@) =~= stage_views(before).push((program@, str_views(args@))));
        PipeBuilder { commands }
    }

    /// The number of commands in the chain: always at least two.
    pub fn len(&self) -> (r: usize)
        ensures
            r == self@.len(),
            r >= 2,
    {
        proof {
            use_type_invariant(self);
        }
        self.commands.len()
    }

    /// How each process of the chain is started, in order. With `capture`, the
    /// last process's output is captured (as `output` does); without it, the
    /// last process writes to the caller's streams (as `run` does).
    pub fn plan(&self, capture: bool) -> (r: Vec<PipeStage>)
        ensures
            r@.len() == self@.len(),
            forall|i: int| 0 <= i < r@.len() ==> {
                &&& (#[trigger] r@[i]).program@ == self@[i].0
                &&& r@[i].args.deep_view() == self@[i].1
                &&& (r@[i].stdin, r@[i].stdout, r@[i].stderr) == stage_wiring(i, r@.len() as int, capture)
                &&& r@[i].last == (i == r@.len() - 1)
            },
            forall|i: int| 0 <= i < r@.len() ==> (#[trigger] r@[i]).stdin == (if i == 0 {
                StdinSource::Inherit
            } else {
                StdinSource::PreviousStage
            }),
            forall|i: int| 0 <= i < r@.len() - 1 ==> (#[trigger] r@[i]).stdout == OutputTarget::Piped,
            r@[r@.len() - 1].stdout == (if capture { OutputTarget::Piped } else { OutputTarget::Inherit }),
            r@[r@.len() - 1].stderr == (if capture { OutputTarget::Piped } else { OutputTarget::Inherit }),
    {
        proof {
            use_type_invariant(self);
        }
        let n = self.commands.len();
        let mut out: Vec<PipeStage> = Vec::new();
        let mut i: usize = 0;
        while i < n
            invariant
                n == self.commands@.len(),
                i <= n,
                out@.len() == i,
                forall|k: int| 0 <= k < i ==> {
                    &&& (#[trigger] out@[k]).program@ == self@[k].0
                    &&& out@[k].args.deep_view() == self@[k].1
                    &&& (out@[k].stdin, out@[k].stdout, out@[k].stderr) == stage_wiring(k, n as int, capture)
                    &&& out@[k].last == (k == n - 1)
                },
            decreases n - i,
        {
            let stdin = if i == 0 { StdinSource::Inherit } else { StdinSource::PreviousStage };
            let last = i + 1 == n;
            let (stdout, stderr) = if !last {
                (OutputTarget::Piped, if capture { OutputTarget::Piped } else { OutputTarget::Inherit })
            } else if capture {
                (OutputTarget::Piped, OutputTarget::Piped)
            } else {
                (OutputTarget::Inherit, OutputTarget::Inherit)
            };
            let program = self.commands[i].0.clone();
            let args = clone_strings(&self.commands[i].1);
            out.push(PipeStage { program, args, stdin, stdout, stderr, last });
            i = i + 1;
        }
        out
    }
}

/// Copies a list of strings.
fn clone_strings(v: &Vec<String>) -> (r: Vec<String>)
    ensures
        r.deep_view() == v.deep_view(),
{
    let mut out: Vec<String> = Vec::new();
    let mut i: usize = 0;
    while i < v.len()
        invariant
            i <= v@.len(),
            out@.len() == i,
            forall|k: int| 0 <= k < i ==> (#[trigger] out@[k])@ == v@[k]@,
        decreases v@.len() - i,
    {
        out.push(v[i].clone());
        i = i + 1;
    }
    assert(out.deep_view() =~= v.deep_view());
    out
}


/// How a command that ran ended unsuccessfully, with what its message names.
/// An exit code is absent when the process was ended by a signal.
#[derive(Debug, Clone, PartialEq, Eq)]
pub enum ShFailure {
    /// A shell command run with inherited output exited unsuccessfully.
    ShellExit { code: Option<i32>, command: String },
    /// A shell command whose output was captured exited unsuccessfully.
    ShellOutputExit { code: Option<i32>, command: String, stderr: String },
    /// A built command run with inherited output exited unsuccessfully.
    CommandExit { code: Option<i32> },
    /// A built command whose output was captured exited unsuccessfully.
    CommandOutputExit { code: Option<i32>, stderr: String },
    /// A stage of a captured pipe chain exited unsuccessfully.
    PipeOutputExit { program: String, stderr: String },
    /// A stage of a pipe chain with inherited output exited unsuccessfully.
    PipeRunExit { code: Option<i32>, program: String },
    /// A background process exited unsuccessfully.
    ChildExit { code: Option<i32> },
}

/// The exit code as messages show it: -1 when there is none.
pub open spec fn code_text(code: Option<i32>) -> Seq<char> {
    crate::text::signed_decimal(
        match code {
            Some(c) => c as int,
            None => -1,
        },
    )
}

/// The text that describes a failure.
pub open spec fn spec_failure_message(f: ShFailure) -> Seq<char> {
    match f {
        ShFailure::ShellExit { code, command } => "Command failed with exit code "@ + code_text(code) + ": "@
            + command@,
        ShFailure::ShellOutputExit { code, command, stderr } => "Command failed with exit code "@ + code_text(code)
            + ": "@ + command@ + "\n"@ + stderr@,
        ShFailure::CommandExit { code } => "Command failed with exit code "@ + code_text(code),
        ShFailure::CommandOutputExit { code, stderr } => "Command failed with exit code "@ + code_text(code) + "\n"@
            + stderr@,
        ShFailure::PipeOutputExit { program, stderr } => "Pipe command failed: "@ + program@ + "\n"@ + stderr@,
        ShFailure::PipeRunExit { code, program } => "Pipe command failed with exit code "@ + code_text(code) + ": "@
            + program@,
        ShFailure::ChildExit { code } => "Child process exited with code "@ + code_text(code),
    }
}

fn code_string(code: Option<i32>) -> (r: String)
    ensures
        r@ == code_text(code),
{
    crate::text::signed_decimal_string(
        match code {
            Some(c) => c,
            None => -1,
        },
    )
}

impl ShFailure {
    /// The text that describes this failure.
    pub fn message(&self) -> (r: String)
        ensures
            r@ == spec_failure_message(*self),
    {
        let mut m = String::new();
        match self {
            ShFailure::ShellExit { code, command } => {
                m.append("Command failed with exit code ");
                m.append(code_string(*code).as_str());
                m.append(": ");
                m.append(command.as_str());
            },
            ShFailure::ShellOutputExit { code, command, stderr } => {
                m.append("Command failed with exit code ");
                m.append(code_string(*code).as_str());
                m.append(": ");
                m.append(command.as_str());
                m.append("\n");
                m.append(stderr.as_str());
            },
            ShFailure::CommandExit { code } => {
                m.append("Command failed with exit code ");
                m.append(code_string(*code).as_str());
            },
            ShFailure::CommandOutputExit { code, stderr } => {
                m.append("Command failed with exit code ");
                m.append(code_string(*code).as_str());
                m.append("\n");
                m.append(stderr.as_str());
            },
            ShFailure::PipeOutputExit { program, stderr } => {
                m.append("Pipe command failed: ");
                m.append(program.as_str());
                m.append("\n");
                m.append(stderr.as_str());
            },
            ShFailure::PipeRunExit { code, program } => {
                m.append("Pipe command failed with exit code ");
                m.append(code_string(*code).as_str());
                m.append(": ");
                m.append(program.as_str());
            },
            ShFailure::ChildExit { code } => {
                m.append("Child process exited with code ");
                m.append(code_string(*code).as_str());
            },
        }
        m
    }
}
/// How one stage of a pipe chain ended: its program, whether it succeeded,
/// its exit code (absent when a signal ended it) and what it wrote to its
/// error stream when that was captured.
pub struct StageExit {
    pub program: String,
    pub success: bool,
    pub code: Option<i32>,
    pub stderr: String,
}

/// The position of the first stage, in chain order, that did not succeed.
pub open spec fn first_failed_stage(exits: Seq<StageExit>) -> Option<int>
    decreases exits.len(),
{
    if exits.len() == 0 {
        None
    } else {
        match first_failed_stage(exits.drop_last()) {
            Some(i) => Some(i),
            None => if !exits.last().success {
                Some(exits.len() - 1)
            } else {
                None
            },
        }
    }
}

/// Whether `f` reports the failure of stage `e`: with the stage's program and
/// captured error output when the chain's output is captured, with its
/// program and exit code otherwise.
pub open spec fn reports_stage(f: ShFailure, e: StageExit, capture: bool) -> bool {
    if capture {
        f matches ShFailure::PipeOutputExit { program, stderr } && program@ == e.program@ && stderr@ == e.stderr@
    } else {
        f matches ShFailure::PipeRunExit { code, program } && code == e.code && program@ == e.program@
    }
}

/// Decides how a pipe chain ended from how each of its stages ended: it
/// fails, as any stage fails, reporting the first stage that did not
/// succeed; it succeeds when every stage did.
pub fn pipe_failure(exits: &Vec<StageExit>, capture: bool) -> (r: Option<ShFailure>)
    ensures
        match first_failed_stage(exits@) {
            None => r is None,
            Some(i) => r matches Some(f) && reports_stage(f, exits@[i], capture),
        },
        r is None <==> forall|i: int| 0 <= i < exits@.len() ==> (#[trigger] exits@[i]).success,
{
    let mut i: usize = 0;
    while i < exits.len()
        invariant
            i <= exits@.len(),
            first_failed_stage(exits@.take(i as int)) is None,
            forall|k: int| 0 <= k < i ==> (#[trigger] exits@[k]).success,
        decreases exits@.len() - i,
    {
        if !exits[i].success {
            proof {
                lemma_first_failed_prefix(exits@, exits@.len() as int);
                assert(exits@.take(exits@.len() as int) =~= exits@);
            }
            let e = &exits[i];
            if capture {
                return Some(ShFailure::PipeOutputExit { program: e.program.clone(), stderr: e.stderr.clone() });
            } else {
                return Some(ShFailure::PipeRunExit { code: e.code, program: e.program.clone() });
            }
        }
        i = i + 1;
        proof {
            lemma_first_failed_prefix(exits@, i as int);
        }
    }
    proof {
        lemma_first_failed_prefix(exits@, exits@.len() as int);
        assert(exits@.take(exits@.len() as int) =~= exits@);
    }
    None
}

/// The first failed stage of a prefix: none while every stage of the prefix
/// succeeded, and once one fails, the first failure of every longer prefix.
proof fn lemma_first_failed_prefix(exits: Seq<StageExit>, n: int)
    requires
        0 <= n <= exits.len(),
    ensures
        (forall|k: int| 0 <= k < n ==> (#[trigger] exits[k]).success) ==> first_failed_stage(exits.take(n)) is None,
        forall|f: int|
            0 <= f < n && !(#[trigger] exits[f]).success && (forall|k: int| 0 <= k < f ==> exits[k].success)
                ==> first_failed_stage(exits.take(n)) == Some(f),
    decreases n,
{
    if n > 0 {
        lemma_first_failed_prefix(exits, n - 1);
        assert(exits.take(n).drop_last() =~= exits.take(n - 1));
        assert(exits.take(n).last() == exits[n - 1]);
    }
}

} // verus!
