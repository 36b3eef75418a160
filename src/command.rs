use vstd::prelude::*;
use vstd::string::*;

use crate::jobs::{Status, StatusView};
use crate::text::{copy_string, copy_strings, quoted, debug_quoted};

verus! {

/// A job that runs an external program, unless its guards say there is nothing to do.
#[derive(Debug)]
pub struct Command {
    pub argv: Option<Vec<String>>,
    pub chdir: Option<String>,
    pub command: String,
    /// When this path exists, the program is not run.
    pub creates: Option<String>,
    /// When this path is absent, the program is not run.
    pub removes: Option<String>,
}

/// Why a command job failed.
#[derive(Clone, Debug, PartialEq, Eq)]
pub enum Error {
    /// The program could not be started.
    CommandBegin { cmd: String, reason: String },
    /// Waiting for the program failed.
    CommandWait { cmd: String, reason: String },
    /// The program exited with a non-zero status.
    NonZeroExitStatus { cmd: String },
}

/// A program to start: what runs it, with which arguments, and where.
#[derive(Debug)]
pub struct Invocation {
    pub program: String,
    pub args: Vec<String>,
    /// The working directory; `None` for the current one.
    pub cwd: Option<String>,
}

/// What running a command job comes to once its guards are checked.
#[derive(Debug)]
pub enum CommandPlan {
    /// A guard holds: the job ends with this status and nothing is started.
    Finished(Status),
    /// The program has to be started.
    Spawn(Invocation),
}

/// How a started program ended, as seen by whoever ran it.
#[derive(Clone, Debug, PartialEq, Eq)]
pub enum ExitOutcome {
    /// It could not be started.
    SpawnFailed(String),
    /// Waiting for it failed.
    WaitFailed(String),
    /// It exited; `true` for a zero status.
    Exited(bool),
}

pub open spec fn opt_view(o: Option<String>) -> Option<Seq<char>> {
    match o {
        Some(s) => Some(s@),
        None => None,
    }
}

/// Each word in turn, each after one space.
pub open spec fn spaced_words(ws: Seq<String>) -> Seq<char>
    decreases ws.len(),
{
    if ws.len() == 0 {
        Seq::empty()
    } else {
        spaced_words(ws.drop_last()) + " "@ + ws.last()@
    }
}

/// A guard written in shell form, as it stands before the rest of a name.
pub open spec fn guard_text(p: Option<String>, before: Seq<char>) -> Seq<char> {
    match p {
        Some(s) => before + s@ + " ] && "@,
        None => Seq::empty(),
    }
}

impl Command {
    /// The shell-style summary of the job: `[guards] [cd DIR &&] CMD ARGS`.
    pub open spec fn spec_name(&self) -> Seq<char> {
        guard_text(self.creates, "[ ! -e "@) + guard_text(self.removes, "[ -e "@) + match self.chdir {
            Some(d) => "cd "@ + d@ + " && "@,
            None => Seq::empty(),
        } + self.command@ + match self.argv {
            Some(a) => spaced_words(a@),
            None => Seq::empty(),
        }
    }

    /// What the job does: nothing when a guard holds, else starting the program with its
    /// arguments in its directory.
    pub open spec fn spec_plan(&self, creates_exists: bool, removes_exists: bool) -> CommandPlanView {
        if self.creates.is_some() && creates_exists {
            CommandPlanView::Finished(
                StatusView::NoChange(quoted(self.creates.unwrap()@) + " already created"@),
            )
        } else if self.removes.is_some() && !removes_exists {
            CommandPlanView::Finished(
                StatusView::NoChange(quoted(self.removes.unwrap()@) + " already removed"@),
            )
        } else {
            CommandPlanView::Spawn(
                self.command@,
                match self.argv {
                    Some(a) => a@.map_values(|s: String| s@),
                    None => Seq::empty(),
                },
                opt_view(self.chdir),
            )
        }
    }

    /// How the job ends once its program ended.
    pub open spec fn spec_finish(&self, outcome: ExitOutcome) -> Result<Status, Error> {
        match outcome {
            ExitOutcome::SpawnFailed(m) => Err(Error::CommandBegin { cmd: self.command, reason: m }),
            ExitOutcome::WaitFailed(m) => Err(Error::CommandWait { cmd: self.command, reason: m }),
            ExitOutcome::Exited(true) => Ok(Status::Done),
            ExitOutcome::Exited(false) => Err(Error::NonZeroExitStatus { cmd: self.command }),
        }
    }

    pub fn name(&self) -> (r: String)
        ensures
            r@ == self.spec_name(),
    {
        let mut r = String::new();
        if let Some(c) = &self.creates {
            r.append("[ ! -e ");
            r.append(c.as_str());
            r.append(" ] && ");
        }
        if let Some(c) = &self.removes {
            r.append("[ -e ");
            r.append(c.as_str());
            r.append(" ] && ");
        }
        if let Some(c) = &self.chdir {
            r.append("cd ");
            r.append(c.as_str());
            r.append(" && ");
        }
        r.append(self.command.as_str());
        if let Some(a) = &self.argv {
            let mut i: usize = 0;
            let ghost head = r@;
            while i < a.len()
                invariant
                    i <= a@.len(),
                    r@ == head + spaced_words(a@.subrange(0, i as int)),
                decreases a@.len() - i,
            {
                proof {
                    assert(a@.subrange(0, i + 1).drop_last() == a@.subrange(0, i as int));
                }
                r.append(" ");
                r.append(a[i].as_str());
                i = i + 1;
            }
            proof {
                assert(a@.subrange(0, a@.len() as int) == a@);
            }
        }
        r
    }

    /// Checks the guards, given whether the `creates` path and the `removes` path exist
    /// (each ignored when its guard is unset).
    pub fn execute(&self, creates_exists: bool, removes_exists: bool) -> (r: CommandPlan)
        ensures
            r.view() == self.spec_plan(creates_exists, removes_exists),
            self.creates is Some && creates_exists ==> r matches CommandPlan::Finished(Status::NoChange(_)),
            self.removes is Some && !removes_exists ==> r matches CommandPlan::Finished(Status::NoChange(_)),
    {
        if let Some(p) = &self.creates {
            if creates_exists {
                let mut m = debug_quoted(p.as_str());
                m.append(" already created");
                return CommandPlan::Finished(Status::NoChange(m));
            }
        }
        if let Some(p) = &self.removes {
            if !removes_exists {
                let mut m = debug_quoted(p.as_str());
                m.append(" already removed");
                return CommandPlan::Finished(Status::NoChange(m));
            }
        }
        let args = match &self.argv {
            Some(a) => copy_strings(a),
            None => Vec::new(),
        };
        let cwd = match &self.chdir {
            Some(c) => Some(copy_string(c)),
            None => None,
        };
        proof {
            assert(args@.map_values(|s: String| s@) == (match self.argv {
                Some(a) => a@.map_values(|s: String| s@),
                None => Seq::<Seq<char>>::empty(),
            }));
        }
        CommandPlan::Spawn(Invocation { program: copy_string(&self.command), args, cwd })
    }

    /// Settles the job from the way its program ended.
    pub fn finish(&self, outcome: ExitOutcome) -> (r: Result<Status, Error>)
        ensures
            r == self.spec_finish(outcome),
    {
        match outcome {
            ExitOutcome::SpawnFailed(m) => Err(Error::CommandBegin { cmd: copy_string(&self.command), reason: m }),
            ExitOutcome::WaitFailed(m) => Err(Error::CommandWait { cmd: copy_string(&self.command), reason: m }),
            ExitOutcome::Exited(true) => Ok(Status::Done),
            ExitOutcome::Exited(false) => Err(Error::NonZeroExitStatus { cmd: copy_string(&self.command) }),
        }
    }
}

impl Default for Command {
    fn default() -> (r: Command)
        ensures
            r.argv.is_none(),
            r.chdir.is_none(),
            r.command@ == Seq::<char>::empty(),
            r.creates.is_none(),
            r.removes.is_none(),
    {
        Command { argv: None, chdir: None, command: String::new(), creates: None, removes: None }
    }
}

/// The model of a [`CommandPlan`]: a status, or the program, its arguments and its directory.
pub enum CommandPlanView {
    Finished(StatusView),
    Spawn(Seq<char>, Seq<Seq<char>>, Option<Seq<char>>),
}

impl CommandPlan {
    pub open spec fn view(&self) -> CommandPlanView {
        match self {
            CommandPlan::Finished(s) => CommandPlanView::Finished(s@),
            CommandPlan::Spawn(inv) => CommandPlanView::Spawn(
                inv.program@,
                inv.args@.map_values(|s: String| s@),
                opt_view(inv.cwd),
            ),
        }
    }
}

} // verus!
