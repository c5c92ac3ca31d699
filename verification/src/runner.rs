//! Command builder/runner core.
//!
//! A `LoggedCommand` accumulates a program name and an ordered list of
//! string arguments.  The host executes the finished command and reports
//! the raw result back as plain values; `outcome_of_status` classifies
//! that result uniformly, and the line builders produce the exact
//! diagnostic lines that the wrapper prints for each outcome.

use vstd::prelude::*;
use vstd::string::StringExecFns;
use crate::text::dec_int;
use crate::text::push_dec_i32;

verus! {

/// A program name together with an ordered argument list and an optional
/// working directory, built up by conditional appends and consumed once
/// by the host's execute step.
#[derive(Debug, PartialEq, Eq)]
pub struct LoggedCommand {
    pub program: String,
    pub args: Vec<String>,
    pub cwd: Option<String>,
}

impl LoggedCommand {
    /// The program name, as a sequence of characters.
    pub open spec fn program_view(&self) -> Seq<char> {
        self.program@
    }

    /// The argument list, each argument as a sequence of characters.
    pub open spec fn args_view(&self) -> Seq<Seq<char>> {
        self.args.deep_view()
    }

    /// The working directory the command is to run in, if one was set;
    /// the host's current directory otherwise.
    pub open spec fn cwd_view(&self) -> Option<Seq<char>> {
        self.cwd.deep_view()
    }

    /// Start a command for the given program, with no arguments yet and
    /// no working directory of its own.
    pub fn new(command: &str) -> (r: LoggedCommand)
        ensures
            r.program_view() == command@,
            r.args_view() == Seq::<Seq<char>>::empty(),
            r.cwd_view() is None,
    {
        let r = LoggedCommand { program: command.to_owned(), args: Vec::new(), cwd: None };
        proof {
            assert(r.args_view() =~= Seq::<Seq<char>>::empty());
        }
        r
    }

    /// Append one token to the argument list, verbatim.
    pub fn arg(&mut self, arg: &str)
        ensures
            final(self).program_view() == old(self).program_view(),
            final(self).args_view() == old(self).args_view().push(arg@),
            final(self).cwd_view() == old(self).cwd_view(),
    {
        self.args.push(arg.to_owned());
        proof {
            assert(self.args_view() =~= old(self).args_view().push(arg@));
        }
    }

    /// Append a lone flag when `present` holds; otherwise leave the list as it is.
    pub fn arg_if(&mut self, flag: &str, present: bool)
        ensures
            final(self).program_view() == old(self).program_view(),
            final(self).args_view() == old(self).args_view() + opt_flag(present, flag@),
            final(self).cwd_view() == old(self).cwd_view(),
    {
        if present {
            self.arg(flag);
        }
        proof {
            assert(self.args_view() =~= old(self).args_view() + opt_flag(present, flag@));
        }
    }

    /// Append a flag followed by its value when the value is present;
    /// otherwise leave the list as it is.
    pub fn arg_opt(&mut self, flag: &str, value: &Option<String>)
        ensures
            final(self).program_view() == old(self).program_view(),
            final(self).args_view() == old(self).args_view() + opt_value(*value, flag@),
            final(self).cwd_view() == old(self).cwd_view(),
    {
        match value {
            Some(v) => {
                self.arg(flag);
                self.arg(v.as_str());
            },
            None => {},
        }
        proof {
            assert(self.args_view() =~= old(self).args_view() + opt_value(*value, flag@));
        }
    }

    /// Append every token of a list to the argument list, in order.
    pub fn args_from(&mut self, args: &[String])
        ensures
            final(self).program_view() == old(self).program_view(),
            final(self).args_view() == old(self).args_view() + args.deep_view(),
            final(self).cwd_view() == old(self).cwd_view(),
    {
        let mut i: usize = 0;
        while i < args.len()
            invariant
                i <= args@.len(),
                args.deep_view().len() == args@.len(),
                self.program_view() == old(self).program_view(),
                self.args_view() == old(self).args_view() + args.deep_view().take(i as int),
                self.cwd_view() == old(self).cwd_view(),
            decreases args@.len() - i,
        {
            self.arg(args[i].as_str());
            proof {
                assert(old(self).args_view() + args.deep_view().take(i + 1) =~= (old(
                    self,
                ).args_view() + args.deep_view().take(i as int)).push(args.deep_view()[i as int]));
            }
            i += 1;
        }
        proof {
            assert(args.deep_view().take(args@.len() as int) =~= args.deep_view());
        }
    }

    /// Set the directory the command is to run in.
    pub fn current_dir(&mut self, dir: &str)
        ensures
            final(self).program_view() == old(self).program_view(),
            final(self).args_view() == old(self).args_view(),
            final(self).cwd_view() == Some(dir@),
    {
        self.cwd = Some(dir.to_owned());
    }
}

impl LoggedCommand {
    /// The diagnostic echo of the command: the program name and the
    /// space-joined argument list.  No shell quoting is introduced; the
    /// line is never reinterpreted as a shell command.
    pub fn command_line(&self) -> (r: String)
        ensures
            r@ == self.program_view() + " "@ + join_spaces(self.args_view()),
    {
        let mut line = self.program.clone();
        line.append(" ");
        let mut i: usize = 0;
        while i < self.args.len()
            invariant
                line@ == self.program@ + " "@ + join_spaces(self.args.deep_view().take(i as int)),
                i <= self.args.len(),
                self.args.deep_view().len() == self.args.len(),
            decreases self.args.len() - i,
        {
            if i > 0 {
                line.append(" ");
            }
            line.append(self.args[i].as_str());
            proof {
                let prefix = self.args.deep_view().take(i as int);
                lemma_join_spaces_push(prefix, self.args.deep_view()[i as int]);
                assert(self.args.deep_view().take(i + 1) =~= prefix.push(
                    self.args.deep_view()[i as int],
                ));
                assert(line@ =~= self.program@ + " "@ + join_spaces(
                    self.args.deep_view().take(i + 1),
                ));
            }
            i += 1;
        }
        proof {
            assert(self.args.deep_view().take(self.args.len() as int) =~= self.args.deep_view());
        }
        line
    }
}

/// The argument tokens joined by single spaces.
pub open spec fn join_spaces(args: Seq<Seq<char>>) -> Seq<char>
    decreases args.len(),
{
    if args.len() == 0 {
        Seq::empty()
    } else if args.len() == 1 {
        args[0]
    } else {
        args[0] + " "@ + join_spaces(args.drop_first())
    }
}

/// Joining one more token appends one space and that token, except that
/// the very first token is not preceded by a space.
pub proof fn lemma_join_spaces_push(args: Seq<Seq<char>>, x: Seq<char>)
    ensures
        args.len() == 0 ==> join_spaces(args.push(x)) == x,
        args.len() > 0 ==> join_spaces(args.push(x)) == join_spaces(args) + " "@ + x,
    decreases args.len(),
{
    if args.len() == 0 {
        assert(args.push(x)[0] == x);
    } else {
        lemma_join_spaces_push(args.drop_first(), x);
        assert(args.push(x).drop_first() =~= args.drop_first().push(x));
        if args.len() == 1 {
            assert(join_spaces(args.push(x)) == args[0] + " "@ + x);
        } else {
            assert(join_spaces(args) + " "@ + x =~= args[0] + " "@ + (join_spaces(
                args.drop_first(),
            ) + " "@ + x));
        }
    }
}

/// The uniform report of one execution: the child ran and exited cleanly,
/// ran and exited with a non-zero code, ran and was terminated without an
/// exit code, or could not be spawned at all.
#[derive(Debug, PartialEq, Eq)]
pub enum ExecutionOutcome {
    Success,
    NonZeroExit(i32),
    Terminated,
    SpawnFailed(String),
}

/// The outcome that a raw wait status maps to: `Err` carries the spawn
/// error, `Ok(Some(0))` is success, any other exit code is a non-zero
/// exit, and `Ok(None)` is a child terminated without an exit code.
pub open spec fn outcome_spec(status: Result<Option<i32>, String>) -> ExecutionOutcome {
    match status {
        Ok(Some(code)) => if code == 0 {
            ExecutionOutcome::Success
        } else {
            ExecutionOutcome::NonZeroExit(code)
        },
        Ok(None) => ExecutionOutcome::Terminated,
        Err(e) => ExecutionOutcome::SpawnFailed(e),
    }
}

/// Classify the raw result of spawning and waiting on a child process.
/// The host hands in `Err` with the spawn error's rendering when the
/// child could not be started, and otherwise the exit code, if any.
pub fn outcome_of_status(status: Result<Option<i32>, String>) -> (r: ExecutionOutcome)
    ensures
        r == outcome_spec(status),
{
    match status {
        Ok(Some(code)) => {
            if code == 0 {
                ExecutionOutcome::Success
            } else {
                ExecutionOutcome::NonZeroExit(code)
            }
        },
        Ok(None) => ExecutionOutcome::Terminated,
        Err(e) => ExecutionOutcome::SpawnFailed(e),
    }
}

/// A wrapped tool is installed on demand exactly when probing it failed
/// to spawn at all; a probe that ran, with whatever exit code, means the
/// tool is present.
pub fn needs_install(probe: &ExecutionOutcome) -> (r: bool)
    ensures
        r == (probe is SpawnFailed),
{
    matches!(probe, ExecutionOutcome::SpawnFailed(_))
}

/// The informational line printed before launching a command.
pub fn running_line(cmd: &LoggedCommand) -> (r: String)
    ensures
        r@ == "[INFO] Running command: "@ + cmd.program_view() + " "@ + join_spaces(
            cmd.args_view(),
        ),
{
    let mut line = String::from_str("[INFO] Running command: ");
    let tail = cmd.command_line();
    line.append(tail.as_str());
    proof {
        assert(line@ =~= "[INFO] Running command: "@ + cmd.program_view() + " "@ + join_spaces(
            cmd.args_view(),
        ));
    }
    line
}

/// The line an outcome puts on standard output: a success note, and
/// nothing for the other outcomes.
pub fn stdout_line(outcome: &ExecutionOutcome) -> (r: Option<String>)
    ensures
        match *outcome {
            ExecutionOutcome::Success => r matches Some(s) && s@
                == "[INFO] Command executed successfully."@,
            _ => r is None,
        },
{
    match outcome {
        ExecutionOutcome::Success => Some(String::from_str("[INFO] Command executed successfully.")),
        _ => None,
    }
}

/// The line an outcome puts on standard error: nothing on success, a
/// warning naming the exit status otherwise, and an error naming the
/// spawn failure when the child never started.
pub fn stderr_line(outcome: &ExecutionOutcome) -> (r: Option<String>)
    ensures
        match *outcome {
            ExecutionOutcome::Success => r is None,
            ExecutionOutcome::NonZeroExit(code) => r matches Some(s) && s@
                == "[WARN] Command exited with status: exit status: "@ + dec_int(code as int),
            ExecutionOutcome::Terminated => r matches Some(s) && s@
                == "[WARN] Command exited with status: terminated by signal"@,
            ExecutionOutcome::SpawnFailed(e) => r matches Some(s) && s@
                == "[ERROR] Failed to execute command: "@ + e@,
        },
{
    match outcome {
        ExecutionOutcome::Success => None,
        ExecutionOutcome::NonZeroExit(code) => {
            let mut s = String::from_str("[WARN] Command exited with status: exit status: ");
            push_dec_i32(&mut s, *code);
            Some(s)
        },
        ExecutionOutcome::Terminated => Some(
            String::from_str("[WARN] Command exited with status: terminated by signal"),
        ),
        ExecutionOutcome::SpawnFailed(e) => {
            let mut s = String::from_str("[ERROR] Failed to execute command: ");
            s.append(e.as_str());
            Some(s)
        },
    }
}

/// An element occurs in a concatenation exactly when it occurs in one
/// of the parts.
pub proof fn lemma_contains_add<A>(a: Seq<A>, b: Seq<A>, x: A)
    ensures
        (a + b).contains(x) <==> a.contains(x) || b.contains(x),
{
    if a.contains(x) {
        let i = choose|i: int| 0 <= i < a.len() && a[i] == x;
        assert((a + b)[i] == x);
    }
    if b.contains(x) {
        let i = choose|i: int| 0 <= i < b.len() && b[i] == x;
        assert((a + b)[a.len() + i] == x);
    }
    if (a + b).contains(x) {
        let i = choose|i: int| 0 <= i < (a + b).len() && (a + b)[i] == x;
        if i < a.len() {
            assert(a[i] == x);
        } else {
            assert(b[i - a.len()] == x);
        }
    }
}

/// The tokens of a lone flag contain a given token exactly when the
/// flag was set and the token is the flag itself.
pub proof fn lemma_opt_flag_contains(present: bool, flag: Seq<char>, x: Seq<char>)
    ensures
        opt_flag(present, flag).contains(x) <==> present && x == flag,
{
    if present && x == flag {
        assert(opt_flag(present, flag)[0] == x);
    }
}

/// The tokens of a value-carrying flag contain a given token exactly
/// when the option was given and the token is the flag or its value.
pub proof fn lemma_opt_value_contains(value: Option<String>, flag: Seq<char>, x: Seq<char>)
    ensures
        opt_value(value, flag).contains(x) <==> (value matches Some(v) && (x == flag || x == v@)),
{
    match value {
        Some(v) => {
            if x == flag {
                assert(opt_value(value, flag)[0] == x);
            }
            if x == v@ {
                assert(opt_value(value, flag)[1] == x);
            }
            if opt_value(value, flag).contains(x) {
                let i = choose|i: int|
                    0 <= i < opt_value(value, flag).len() && opt_value(value, flag)[i] == x;
                assert(i == 0 || i == 1);
            }
        },
        None => {},
    }
}

/// Sequence concatenation is associative.
pub proof fn lemma_add_assoc<A>(a: Seq<A>, b: Seq<A>, c: Seq<A>)
    ensures
        (a + b) + c == a + (b + c),
{
    assert((a + b) + c =~= a + (b + c));
}

/// The tokens contributed by a lone flag: the flag itself when the
/// corresponding option was set, and nothing otherwise.
pub open spec fn opt_flag(present: bool, flag: Seq<char>) -> Seq<Seq<char>> {
    if present {
        seq![flag]
    } else {
        Seq::empty()
    }
}

/// The tokens contributed by a flag that carries a value: the flag
/// followed by the value when the option was given, and nothing otherwise.
pub open spec fn opt_value(value: Option<String>, flag: Seq<char>) -> Seq<Seq<char>> {
    match value {
        Some(v) => seq![flag, v@],
        None => Seq::empty(),
    }
}

} // verus!
