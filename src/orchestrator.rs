use vstd::prelude::*;
use crate::plan::{
    lemma_plan_runs_index, lemma_plan_runs_step,
    make_environment_id, plan_ids, plan_runs, spec_runs, PlanError, RunInstance, TestOutline,
};

verus! {

/// Seconds an environment is given to boot before the configuration is pushed.
pub const SETTLE_SECONDS: u64 = 5;

/// Where a run stands in its lifecycle.
#[derive(Clone, Copy, Debug, PartialEq, Eq, Structural)]
pub enum Phase {
    Configure,
    Copy,
    Start,
    Settle,
    Push,
    Exec,
    Stop,
    Finished,
    Aborted,
}

/// What the driver of the loop has to do next.
pub enum Action {
    /// Write the overlay of the document at `base_path` (its `timeout`
    /// replaced when one is given) to `artifact`. A failure is fatal.
    WriteConfig { base_path: String, timeout: Option<String>, artifact: String },
    /// Invoke the environment tool with these arguments. A failure is fatal.
    Tool { args: Vec<String> },
    /// Wait this many seconds.
    Settle { seconds: u64 },
    /// Hand these tool arguments to the execution worker and wait for it.
    /// Its failure is logged and does not stop the plan.
    Dispatch { args: Vec<String> },
    /// Every run went through its lifecycle.
    Finished,
    /// A fatal failure ended the plan.
    Aborted,
}

/// The mathematical content of an [`Action`].
pub enum Step {
    WriteConfig { base_path: Seq<char>, timeout: Option<Seq<char>>, artifact: Seq<char> },
    Tool(Seq<Seq<char>>),
    Settle(nat),
    Dispatch(Seq<Seq<char>>),
    Finished,
    Aborted,
}

pub open spec fn strings_view(v: Vec<String>) -> Seq<Seq<char>> {
    v@.map_values(|s: String| s@)
}

impl View for Action {
    type V = Step;

    open spec fn view(&self) -> Step {
        match *self {
            Action::WriteConfig { base_path, timeout, artifact } => Step::WriteConfig {
                base_path: base_path@,
                timeout: crate::plan::opt_view(timeout),
                artifact: artifact@,
            },
            Action::Tool { args } => Step::Tool(strings_view(args)),
            Action::Settle { seconds } => Step::Settle(seconds as nat),
            Action::Dispatch { args } => Step::Dispatch(strings_view(args)),
            Action::Finished => Step::Finished,
            Action::Aborted => Step::Aborted,
        }
    }
}

/// `./<id>.toml`: the local file a run's configuration is written to.
pub open spec fn artifact_path(id: Seq<char>) -> Seq<char> {
    "./"@ + id + ".toml"@
}

/// `<id>/config.toml`: where the configuration goes inside the environment.
pub open spec fn remote_config_path(id: Seq<char>) -> Seq<char> {
    id + "/config.toml"@
}

/// The shell form a test command is run in: its output appended to a marker file.
pub open spec fn shell_command(command: Seq<char>) -> Seq<char> {
    "echo "@ + command + " >> thing"@
}

/// `-p <profile>` for each profile, in order.
pub open spec fn profile_flags(profiles: Seq<Seq<char>>) -> Seq<Seq<char>>
    decreases profiles.len(),
{
    if profiles.len() == 0 {
        Seq::empty()
    } else {
        profile_flags(profiles.drop_last()) + seq!["-p"@, profiles.last()]
    }
}

pub open spec fn copy_args(source: Seq<char>, profiles: Seq<Seq<char>>, id: Seq<char>) -> Seq<Seq<char>> {
    seq!["copy"@, source, id] + profile_flags(profiles)
}

pub open spec fn start_args(id: Seq<char>) -> Seq<Seq<char>> {
    seq!["start"@, id]
}

pub open spec fn push_args(id: Seq<char>) -> Seq<Seq<char>> {
    seq!["file"@, "push"@, artifact_path(id), remote_config_path(id)]
}

pub open spec fn exec_args(id: Seq<char>, command: Seq<char>) -> Seq<Seq<char>> {
    seq!["exec"@, id, "--"@, shell_command(command)]
}

pub open spec fn stop_args(id: Seq<char>) -> Seq<Seq<char>> {
    seq!["stop"@, id]
}

/// The action owed in `phase` of run `k` of the plan.
pub open spec fn step_for(o: TestOutline, k: int, phase: Phase) -> Step {
    let run: RunInstance = plan_runs(o.test_spec@)[k];
    let id = run.environment_id;
    match phase {
        Phase::Configure => Step::WriteConfig {
            base_path: run.base_path,
            timeout: run.timeout,
            artifact: artifact_path(id),
        },
        Phase::Copy => Step::Tool(
            copy_args(o.source_container@, strings_view(o.container_profiles), id),
        ),
        Phase::Start => Step::Tool(start_args(id)),
        Phase::Settle => Step::Settle(SETTLE_SECONDS as nat),
        Phase::Push => Step::Tool(push_args(id)),
        Phase::Exec => Step::Dispatch(exec_args(id, run.command)),
        Phase::Stop => Step::Tool(stop_args(id)),
        Phase::Finished => Step::Finished,
        Phase::Aborted => Step::Aborted,
    }
}

/// The state after the action of run `k` in `phase` reported `ok`, in a plan
/// of `n` runs. The execution outcome never changes the course; any other
/// failure aborts the plan.
pub open spec fn next_state(n: int, k: int, phase: Phase, ok: bool) -> (int, Phase) {
    match phase {
        Phase::Configure => if ok { (k, Phase::Copy) } else { (k, Phase::Aborted) },
        Phase::Copy => if ok { (k, Phase::Start) } else { (k, Phase::Aborted) },
        Phase::Start => if ok { (k, Phase::Settle) } else { (k, Phase::Aborted) },
        Phase::Settle => (k, Phase::Push),
        Phase::Push => if ok { (k, Phase::Exec) } else { (k, Phase::Aborted) },
        Phase::Exec => (k, Phase::Stop),
        Phase::Stop => if !ok {
            (k, Phase::Aborted)
        } else if k + 1 < n {
            (k + 1, Phase::Configure)
        } else {
            (k + 1, Phase::Finished)
        },
        Phase::Finished => (k, Phase::Finished),
        Phase::Aborted => (k, Phase::Aborted),
    }
}

/// The phase a plan is in before anything was done.
pub open spec fn initial_phase(n: int) -> Phase {
    if n == 0 { Phase::Finished } else { Phase::Configure }
}


fn artifact_path_string(id: &String) -> (r: String)
    ensures
        r@ == artifact_path(id@),
{
    String::from_str("./").concat(id.as_str()).concat(".toml")
}

fn copy_args_vec(source: &String, profiles: &Vec<String>, id: &String) -> (r: Vec<String>)
    ensures
        strings_view(r) == copy_args(source@, strings_view(*profiles), id@),
{
    let mut args: Vec<String> = Vec::new();
    args.push(String::from_str("copy"));
    args.push(source.clone());
    args.push(id.clone());
    let ghost head = seq!["copy"@, source@, id@];
    assert(strings_view(args) =~= head);
    let mut i: usize = 0;
    while i < profiles.len()
        invariant
            0 <= i <= profiles@.len(),
            strings_view(args) =~= head + profile_flags(strings_view(*profiles).subrange(0, i as int)),
        decreases profiles@.len() - i,
    {
        let ghost before = args@;
        args.push(String::from_str("-p"));
        args.push(profiles[i].clone());
        assert(strings_view(*profiles).subrange(0, i + 1).drop_last()
            =~= strings_view(*profiles).subrange(0, i as int));
        assert(strings_view(args) =~= before.map_values(|s: String| s@) + seq!["-p"@, profiles[i as int]@]);
        i = i + 1;
    }
    assert(strings_view(*profiles).subrange(0, i as int) =~= strings_view(*profiles));
    args
}

fn pair_args(verb: &str, id: &String) -> (r: Vec<String>)
    ensures
        strings_view(r) == seq![verb@, id@],
{
    let mut args: Vec<String> = Vec::new();
    args.push(String::from_str(verb));
    args.push(id.clone());
    assert(strings_view(args) =~= seq![verb@, id@]);
    args
}

fn push_args_vec(id: &String) -> (r: Vec<String>)
    ensures
        strings_view(r) == push_args(id@),
{
    let mut args: Vec<String> = Vec::new();
    args.push(String::from_str("file"));
    args.push(String::from_str("push"));
    args.push(artifact_path_string(id));
    args.push(id.clone().concat("/config.toml"));
    assert(strings_view(args) =~= push_args(id@));
    args
}

fn exec_args_vec(id: &String, command: &String) -> (r: Vec<String>)
    ensures
        strings_view(r) == exec_args(id@, command@),
{
    let mut args: Vec<String> = Vec::new();
    args.push(String::from_str("exec"));
    args.push(id.clone());
    args.push(String::from_str("--"));
    args.push(String::from_str("echo ").concat(command.as_str()).concat(" >> thing"));
    assert(strings_view(args) =~= exec_args(id@, command@));
    args
}

/// The drive of a plan through its runs, one test after the other.
pub struct Orchestrator {
    outline: TestOutline,
    test: usize,
    run: u8,
    phase: Phase,
}

impl Orchestrator {
    pub closed spec fn spec_outline(&self) -> TestOutline {
        self.outline
    }

    pub closed spec fn spec_phase(&self) -> Phase {
        self.phase
    }

    /// The position of the current run among all runs of the plan.
    pub closed spec fn position(&self) -> int {
        plan_runs(self.outline.test_spec@.subrange(0, self.test as int)).len() + self.run
    }

    /// The number of runs of the plan.
    pub open spec fn total(&self) -> int {
        plan_runs(self.spec_outline().test_spec@).len() as int
    }

    pub closed spec fn wf(&self) -> bool {
        let tests = self.outline.test_spec@;
        if self.phase == Phase::Finished {
            self.test == tests.len() && self.run == 0
        } else {
            self.test < tests.len() && self.run < tests[self.test as int].nr_of_test_runs
        }
    }

    proof fn lemma_wf_position(&self)
        requires
            self.wf(),
        ensures
            self.spec_phase() == Phase::Finished ==> self.position() == self.total(),
            self.spec_phase() != Phase::Finished ==> 0 <= self.position() < self.total()
                && plan_runs(self.outline.test_spec@)[self.position()]
                    == spec_runs(self.outline.test_spec@[self.test as int])[self.run as int],
    {
        let tests = self.outline.test_spec@;
        if self.phase == Phase::Finished {
            assert(tests.subrange(0, self.test as int) =~= tests);
        } else {
            lemma_plan_runs_index(tests, self.test as int, self.run as int);
        }
    }

    /// The first test at or after `from` that has runs, or the number of tests.
    fn next_test_with_runs(outline: &TestOutline, from: usize) -> (j: usize)
        requires
            from <= outline.test_spec@.len(),
        ensures
            from <= j <= outline.test_spec@.len(),
            j < outline.test_spec@.len() ==> outline.test_spec@[j as int].nr_of_test_runs > 0,
            plan_runs(outline.test_spec@.subrange(0, j as int)).len()
                == plan_runs(outline.test_spec@.subrange(0, from as int)).len(),
    {
        let ghost tests = outline.test_spec@;
        let mut j = from;
        while j < outline.test_spec.len() && outline.test_spec[j].nr_of_test_runs == 0
            invariant
                tests == outline.test_spec@,
                from <= j <= tests.len(),
                plan_runs(tests.subrange(0, j as int)).len() == plan_runs(tests.subrange(0, from as int)).len(),
            decreases tests.len() - j,
        {
            proof {
                lemma_plan_runs_step(tests, j as int);
            }
            j = j + 1;
        }
        j
    }

    /// Starts the drive of a plan at its first run. A plan in which two runs
    /// would share an environment is refused.
    pub fn new(outline: TestOutline) -> (r: Result<Orchestrator, PlanError>)
        ensures
            r is Ok <==> plan_ids(outline.test_spec@).no_duplicates(),
            r matches Ok(o) ==> o.wf() && o.spec_outline() == outline && o.position() == 0
                && o.spec_phase() == initial_phase(o.total()),
            r matches Err(PlanError::DuplicateEnvironment(id)) ==> exists|a: int, b: int|
                0 <= a < b < plan_ids(outline.test_spec@).len()
                && plan_ids(outline.test_spec@)[a] == id@
                && plan_ids(outline.test_spec@)[b] == id@,
    {
        match outline.validate() {
            Err(e) => Err(e),
            Ok(()) => {
                assert(outline.test_spec@.subrange(0, 0) =~= Seq::<crate::plan::TestSpecification>::empty());
                let j = Self::next_test_with_runs(&outline, 0);
                let phase = if j < outline.test_spec.len() { Phase::Configure } else { Phase::Finished };
                let o = Orchestrator { outline, test: j, run: 0, phase };
                proof {
                    o.lemma_wf_position();
                }
                Ok(o)
            },
        }
    }


    /// The action owed now.
    pub fn next_action(&self) -> (r: Action)
        requires
            self.wf(),
        ensures
            r@ == step_for(self.spec_outline(), self.position(), self.spec_phase()),
    {
        proof {
            self.lemma_wf_position();
        }
        match self.phase {
            Phase::Finished => Action::Finished,
            Phase::Aborted => Action::Aborted,
            Phase::Settle => Action::Settle { seconds: SETTLE_SECONDS },
            _ => {
                let t = &self.outline.test_spec[self.test];
                let id = make_environment_id(&t.name, self.run);
                match self.phase {
                    Phase::Configure => Action::WriteConfig {
                        base_path: t.path_config.clone(),
                        timeout: match &t.test_length {
                            Some(l) => Some(l.clone()),
                            None => None,
                        },
                        artifact: artifact_path_string(&id),
                    },
                    Phase::Copy => Action::Tool {
                        args: copy_args_vec(
                            &self.outline.source_container,
                            &self.outline.container_profiles,
                            &id,
                        ),
                    },
                    Phase::Start => Action::Tool { args: pair_args("start", &id) },
                    Phase::Push => Action::Tool { args: push_args_vec(&id) },
                    Phase::Exec => Action::Dispatch { args: exec_args_vec(&id, &t.test_cmd) },
                    _ => Action::Tool { args: pair_args("stop", &id) },
                }
            },
        }
    }

    /// Takes in whether the action owed now succeeded and moves on.
    pub fn advance(&mut self, succeeded: bool)
        requires
            old(self).wf(),
        ensures
            final(self).wf(),
            final(self).spec_outline() == old(self).spec_outline(),
            (final(self).position(), final(self).spec_phase())
                == next_state(old(self).total(), old(self).position(), old(self).spec_phase(), succeeded),
    {
        proof {
            self.lemma_wf_position();
        }
        let ghost tests = self.outline.test_spec@;
        match self.phase {
            Phase::Configure => { self.phase = if succeeded { Phase::Copy } else { Phase::Aborted }; },
            Phase::Copy => { self.phase = if succeeded { Phase::Start } else { Phase::Aborted }; },
            Phase::Start => { self.phase = if succeeded { Phase::Settle } else { Phase::Aborted }; },
            Phase::Settle => { self.phase = Phase::Push; },
            Phase::Push => { self.phase = if succeeded { Phase::Exec } else { Phase::Aborted }; },
            Phase::Exec => { self.phase = Phase::Stop; },
            Phase::Stop => {
                if !succeeded {
                    self.phase = Phase::Aborted;
                } else if self.run + 1 < self.outline.test_spec[self.test].nr_of_test_runs {
                    self.run = self.run + 1;
                    self.phase = Phase::Configure;
                    proof {
                        self.lemma_wf_position();
                    }
                } else {
                    proof {
                        lemma_plan_runs_step(tests, self.test as int);
                    }
                    let count = self.outline.test_spec.len();
                    assert(self.test < count);
                    let j = Self::next_test_with_runs(&self.outline, self.test + 1);
                    self.test = j;
                    self.run = 0;
                    self.phase = if j < self.outline.test_spec.len() { Phase::Configure } else { Phase::Finished };
                    proof {
                        self.lemma_wf_position();
                    }
                }
            },
            Phase::Finished => {},
            Phase::Aborted => {},
        }
    }

    /// The plan being driven.
    pub fn outline(&self) -> (r: &TestOutline)
        ensures
            *r == self.spec_outline(),
    {
        &self.outline
    }

    /// The current phase.
    pub fn phase(&self) -> (r: Phase)
        ensures
            r == self.spec_phase(),
    {
        self.phase
    }
}

} // verus!
