//! Lifecycle hooks: shell command lines attached to a phase of setup or
//! teardown.
//!
//! A hook's command lines are split into shell words; each line spawns a
//! process (done by the caller), and the run stops at the first command that
//! fails.  The splitting, the skipping of empty lines, the classification of
//! a process's outcome and the stop-at-first-failure rule are all decided
//! here; only the spawning itself happens outside.

use vstd::prelude::*;

verus! {

/// A set of command lines to run at one lifecycle phase.
#[derive(Debug)]
pub struct HookSpec {
    commands: Vec<String>,
    when: HookExecutionTime,
}

/// When a hook's commands run, relative to link application and removal.
#[derive(Debug, Clone, Copy, PartialEq, Eq, Structural)]
pub enum HookExecutionTime {
    Presetup,
    Postsetup,
    Preteardown,
    Postteardown,
}

/// Why a hook run failed.
#[derive(Debug, Clone, Copy, PartialEq, Eq, Structural)]
pub enum HookError {
    /// The process exited successfully but its output was not valid text.
    UndecodableOutput,
    /// The process exited with a failure status.
    CommandFailed,
    /// The process could not be spawned at all.
    CommandNotStarted,
}

/// The phase a name stands for: each phase answers to its plain name and
/// to its hyphenated one; anything else names no phase.
pub open spec fn spec_phase_of_name(s: Seq<char>) -> Option<HookExecutionTime> {
    if s == "presetup"@ || s == "pre-setup"@ {
        Some(HookExecutionTime::Presetup)
    } else if s == "postsetup"@ || s == "post-setup"@ {
        Some(HookExecutionTime::Postsetup)
    } else if s == "preteardown"@ || s == "pre-teardown"@ {
        Some(HookExecutionTime::Preteardown)
    } else if s == "postteardown"@ || s == "post-teardown"@ {
        Some(HookExecutionTime::Postteardown)
    } else {
        None
    }
}

impl HookExecutionTime {
    /// The phase the given name stands for, exactly as
    /// `spec_phase_of_name` says.
    pub fn from_name(s: &str) -> (r: Option<HookExecutionTime>)
        ensures
            r == spec_phase_of_name(s@),
    {
        if crate::appconf::str_eq(s, "presetup") || crate::appconf::str_eq(s, "pre-setup") {
            Some(HookExecutionTime::Presetup)
        } else if crate::appconf::str_eq(s, "postsetup") || crate::appconf::str_eq(
            s,
            "post-setup",
        ) {
            Some(HookExecutionTime::Postsetup)
        } else if crate::appconf::str_eq(s, "preteardown") || crate::appconf::str_eq(
            s,
            "pre-teardown",
        ) {
            Some(HookExecutionTime::Preteardown)
        } else if crate::appconf::str_eq(s, "postteardown") || crate::appconf::str_eq(
            s,
            "post-teardown",
        ) {
            Some(HookExecutionTime::Postteardown)
        } else {
            None
        }
    }
}

impl HookError {
    /// What the error means, as one line of text.
    pub open spec fn spec_message(&self) -> Seq<char> {
        match self {
            HookError::UndecodableOutput => "Garbage output"@,
            HookError::CommandFailed => "Command finished unsuccessfully"@,
            HookError::CommandNotStarted => "Command not started"@,
        }
    }

    pub fn message(&self) -> (r: String)
        ensures
            r@ == self.spec_message(),
    {
        match self {
            HookError::UndecodableOutput => "Garbage output".to_owned(),
            HookError::CommandFailed => "Command finished unsuccessfully".to_owned(),
            HookError::CommandNotStarted => "Command not started".to_owned(),
        }
    }
}

/// The shell words of a command line, split as a POSIX shell would, or
/// nothing when the line's quoting is erroneous.
pub uninterp spec fn shlex_words(s: Seq<char>) -> Option<Seq<Seq<char>>>;

/// Relies on `shlex::split`: POSIX-style word splitting of one command line,
/// `None` when the quoting is erroneous.  The result depends on the
/// characters alone.
#[verifier::external_body]
fn split_words(s: &str) -> (r: Option<Vec<String>>)
    ensures
        (r is Some) == (shlex_words(s@) is Some),
        r matches Some(v) ==> Some(v.deep_view()) == shlex_words(s@),
{
    shlex::split(s)
}

/// One process to spawn: the program and its arguments.
#[derive(Debug)]
pub struct CommandPlan {
    program: String,
    args: Vec<String>,
}

impl CommandPlan {
    /// The program: the command line's first shell word.
    pub closed spec fn spec_program(&self) -> Seq<char> {
        self.program@
    }

    /// The arguments: the command line's remaining shell words, in order.
    pub closed spec fn spec_args(&self) -> Seq<Seq<char>> {
        self.args.deep_view()
    }

    /// The plan as a mathematical value: program and arguments.
    pub open spec fn model(&self) -> (Seq<char>, Seq<Seq<char>>) {
        (self.spec_program(), self.spec_args())
    }

    pub fn program(&self) -> (r: &String)
        ensures
            r@ == self.spec_program(),
    {
        &self.program
    }

    pub fn args(&self) -> (r: &Vec<String>)
        ensures
            r.deep_view() == self.spec_args(),
    {
        &self.args
    }
}

/// The zero or one plans a single command line gives rise to: none when the
/// line does not split or splits into no words at all; otherwise the first
/// word as the program and the rest as its arguments.
pub open spec fn spec_plan_of(cmd: Seq<char>) -> Seq<(Seq<char>, Seq<Seq<char>>)> {
    match shlex_words(cmd) {
        None => Seq::empty(),
        Some(words) => if words.len() == 0 {
            Seq::empty()
        } else {
            seq![(words[0], words.drop_first())]
        },
    }
}

/// The plans a command-line sequence gives rise to, in declared order.
pub open spec fn spec_plans(cmds: Seq<Seq<char>>) -> Seq<(Seq<char>, Seq<Seq<char>>)>
    decreases cmds.len(),
{
    if cmds.len() == 0 {
        Seq::empty()
    } else {
        spec_plans(cmds.drop_last()) + spec_plan_of(cmds.last())
    }
}

impl HookSpec {
    /// The command lines, in declared order.
    pub closed spec fn spec_commands(&self) -> Seq<Seq<char>> {
        self.commands.deep_view()
    }

    /// The phase this hook runs at.
    pub closed spec fn spec_when(&self) -> HookExecutionTime {
        self.when
    }

    pub fn new(commands: Vec<String>, when: HookExecutionTime) -> (r: Self)
        ensures
            r.spec_commands() == commands.deep_view(),
            r.spec_when() == when,
    {
        HookSpec { commands, when }
    }

    pub fn execute_time(&self) -> (r: &HookExecutionTime)
        ensures
            *r == self.spec_when(),
    {
        &self.when
    }

    /// Splits each command line into the process it spawns.  Lines that do
    /// not split and lines with no words are skipped; order is kept.
    pub fn make_commands(&self) -> (r: Vec<CommandPlan>)
        ensures
            r@.map_values(|p: CommandPlan| p.model()) == spec_plans(self.spec_commands()),
    {
        let mut plans: Vec<CommandPlan> = Vec::new();
        let n = self.commands.len();
        proof {
            assert(self.spec_commands().subrange(0, 0) =~= Seq::<Seq<char>>::empty());
            assert(plans@.map_values(|p: CommandPlan| p.model()) =~= Seq::<(
                Seq<char>,
                Seq<Seq<char>>,
            )>::empty());
        }
        let mut i: usize = 0;
        while i < n
            invariant
                i <= n,
                n == self.commands.len(),
                plans@.map_values(|p: CommandPlan| p.model()) == spec_plans(
                    self.spec_commands().subrange(0, i as int),
                ),
            decreases n - i,
        {
            let ghost pre = self.spec_commands().subrange(0, i as int);
            let ghost plans_pre = plans@.map_values(|p: CommandPlan| p.model());
            match split_words(self.commands[i].as_str()) {
                None => {},
                Some(words) => {
                    if words.len() > 0 {
                        let mut args: Vec<String> = Vec::new();
                        proof {
                            assert(args.deep_view() =~= words.deep_view().subrange(1, 1));
                        }
                        let mut j: usize = 1;
                        while j < words.len()
                            invariant
                                1 <= j <= words.len(),
                                args.deep_view() == words.deep_view().subrange(1, j as int),
                            decreases words.len() - j,
                        {
                            let ghost pre_dv = args.deep_view();
                            args.push(words[j].clone());
                            proof {
                                assert(args.deep_view() =~= pre_dv.push(
                                    words.deep_view()[j as int],
                                ));
                                assert(pre_dv.push(words.deep_view()[j as int])
                                    =~= words.deep_view().subrange(1, j as int + 1));
                            }
                            j += 1;
                        }
                        let program = words[0].clone();
                        proof {
                            assert(args.deep_view() =~= words.deep_view().drop_first());
                        }
                        plans.push(CommandPlan { program, args });
                    }
                },
            }
            proof {
                let post = self.spec_commands().subrange(0, i + 1);
                assert(post.drop_last() =~= pre);
                assert(post.last() == self.spec_commands()[i as int]);
                assert(plans@.map_values(|p: CommandPlan| p.model()) =~= plans_pre + spec_plan_of(
                    self.spec_commands()[i as int],
                ));
            }
            i += 1;
        }
        proof {
            assert(self.spec_commands().subrange(0, n as int) =~= self.spec_commands());
        }
        plans
    }
}

/// What running one hook command came to, as the caller observed it.
#[derive(Debug)]
pub enum HookOutcome {
    /// The process could not be spawned.
    NotStarted,
    /// The process ran to completion: whether it exited successfully, and
    /// its captured standard output when that decoded as valid text.
    Finished { success: bool, output: Option<String> },
}

/// The verdict a command's outcome owes: its decoded output on success; an
/// error when the process did not start, exited with a failure status, or
/// produced output that is not valid text.
pub open spec fn spec_classify(o: &HookOutcome) -> Result<Seq<char>, HookError> {
    match o {
        HookOutcome::NotStarted => Err(HookError::CommandNotStarted),
        HookOutcome::Finished { success, output } => if *success {
            match output {
                None => Err(HookError::UndecodableOutput),
                Some(s) => Ok(s@),
            }
        } else {
            Err(HookError::CommandFailed)
        },
    }
}

/// Classifies a command's outcome exactly as `spec_classify` says.
pub fn classify_outcome(outcome: HookOutcome) -> (r: Result<String, HookError>)
    ensures
        (match r {
            Ok(s) => spec_classify(&outcome) == Ok::<Seq<char>, HookError>(s@),
            Err(e) => spec_classify(&outcome) == Err::<Seq<char>, HookError>(e),
        }),
{
    match outcome {
        HookOutcome::NotStarted => Err(HookError::CommandNotStarted),
        HookOutcome::Finished { success, output } => if !success {
            Err(HookError::CommandFailed)
        } else {
            match output {
                None => Err(HookError::UndecodableOutput),
                Some(s) => Ok(s),
            }
        },
    }
}

/// A run of one hook's commands, in declared order, stopping at the first
/// failure.  The caller spawns the current command and records what it came
/// to; this type decides which command is current and when the run is over.
#[derive(Debug)]
pub struct HookRun {
    plans: Vec<CommandPlan>,
    next: usize,
    failed: Option<HookError>,
}

impl HookRun {
    /// The planned commands, in order.
    pub closed spec fn spec_plans(&self) -> Seq<(Seq<char>, Seq<Seq<char>>)> {
        self.plans@.map_values(|p: CommandPlan| p.model())
    }

    /// How many commands have succeeded so far.
    pub closed spec fn spec_next(&self) -> int {
        self.next as int
    }

    /// The error of the first failed command, once one has failed.
    pub closed spec fn spec_failed(&self) -> Option<HookError> {
        self.failed
    }

    pub open spec fn wf(&self) -> bool {
        0 <= self.spec_next() <= self.spec_plans().len()
    }

    /// Which command runs now: the one at the cursor, unless every command
    /// is done or an earlier one failed.
    pub open spec fn spec_current(&self) -> Option<(Seq<char>, Seq<Seq<char>>)> {
        if self.spec_failed() is None && self.spec_next() < self.spec_plans().len() {
            Some(self.spec_plans()[self.spec_next()])
        } else {
            None
        }
    }

    /// A fresh run over the given commands.
    pub fn new(plans: Vec<CommandPlan>) -> (r: Self)
        ensures
            r.wf(),
            r.spec_plans() == plans@.map_values(|p: CommandPlan| p.model()),
            r.spec_next() == 0,
            r.spec_failed() is None,
    {
        HookRun { plans, next: 0, failed: None }
    }

    /// The command to spawn now, if the run still owes one.
    pub fn next_command(&self) -> (r: Option<&CommandPlan>)
        requires
            self.wf(),
        ensures
            (match r {
                Some(p) => self.spec_current() == Some(p.model()),
                None => self.spec_current() is None,
            }),
    {
        if self.failed.is_none() && self.next < self.plans.len() {
            Some(&self.plans[self.next])
        } else {
            None
        }
    }

    /// Records what the current command came to: on success the run moves to
    /// the next command; on failure it stops for good with that command's
    /// error, and no later command ever becomes current.
    pub fn record_outcome(&mut self, outcome: HookOutcome) -> (r: Result<String, HookError>)
        requires
            old(self).wf(),
            old(self).spec_current() is Some,
        ensures
            final(self).wf(),
            final(self).spec_plans() == old(self).spec_plans(),
            (spec_classify(&outcome) matches Ok(s) ==> (r matches Ok(out) && out@ == s
                && final(self).spec_next() == old(self).spec_next() + 1
                && final(self).spec_failed() is None)),
            (spec_classify(&outcome) matches Err(e) ==> (r == Err::<String, HookError>(e)
                && final(self).spec_next() == old(self).spec_next()
                && final(self).spec_failed() == Some(e))),
    {
        match classify_outcome(outcome) {
            Ok(out) => {
                let n = self.plans.len();
                proof {
                    assert(self.spec_next() < self.spec_plans().len());
                    assert(self.spec_plans().len() == self.plans@.len());
                }
                self.next = self.next + 1;
                Ok(out)
            },
            Err(e) => {
                self.failed = Some(e);
                Err(e)
            },
        }
    }

    /// How the run ended: the first failed command's error, or success
    /// when every command went through.
    pub fn report(&self) -> (r: Result<(), HookError>)
        ensures
            (match self.spec_failed() {
                Some(e) => r == Err::<(), HookError>(e),
                None => r == Ok::<(), HookError>(()),
            }),
    {
        match self.failed {
            Some(e) => Err(e),
            None => Ok(()),
        }
    }
}

/// Once a command has failed, the run offers no further command: the
/// commands after the failing one never become current, and the reported
/// error is the failing command's own.
pub proof fn lemma_failed_run_offers_nothing(run: HookRun)
    requires
        run.spec_failed() is Some,
    ensures
        run.spec_current() is None,
{
}

/// The positions of the hooks declared for the given phase, in declared
/// order: every position selected is declared for the phase, and every hook
/// declared for the phase is selected.
pub fn hooks_for_phase(hooks: &Vec<HookSpec>, phase: HookExecutionTime) -> (r: Vec<usize>)
    ensures
        forall|k: int|
            0 <= k < r@.len() ==> (#[trigger] r@[k]) < hooks@.len() && hooks@[r@[k] as int]
                .spec_when() == phase,
        forall|k1: int, k2: int| 0 <= k1 < k2 < r@.len() ==> r@[k1] < r@[k2],
        forall|i: int|
            0 <= i < hooks@.len() && (#[trigger] hooks@[i].spec_when()) == phase ==> r@.contains(
                i as usize,
            ),
{
    let mut r: Vec<usize> = Vec::new();
    let n = hooks.len();
    let mut i: usize = 0;
    while i < n
        invariant
            i <= n,
            n == hooks@.len(),
            forall|k: int|
                0 <= k < r@.len() ==> (#[trigger] r@[k]) < i && hooks@[r@[k] as int].spec_when()
                    == phase,
            forall|k1: int, k2: int| 0 <= k1 < k2 < r@.len() ==> r@[k1] < r@[k2],
            forall|j: int|
                0 <= j < i && (#[trigger] hooks@[j].spec_when()) == phase ==> r@.contains(
                    j as usize,
                ),
        decreases n - i,
    {
        let ghost r_before = r@;
        let selected = *hooks[i].execute_time() == phase;
        if selected {
            r.push(i);
        }
        proof {
            assert forall|j: int|
                0 <= j < i + 1 && (#[trigger] hooks@[j].spec_when()) == phase implies r@.contains(
                j as usize,
            ) by {
                if j == i {
                    assert(r@[r@.len() - 1] == i as usize);
                } else {
                    assert(r_before.contains(j as usize));
                    let k = choose|k: int| 0 <= k < r_before.len() && r_before[k] == j as usize;
                    assert(r@[k] == j as usize);
                }
            }
        }
        i += 1;
    }
    r
}

} // verus!
