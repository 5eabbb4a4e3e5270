use vstd::prelude::*;

verus! {

/// One test of a plan: a command run `nr_of_test_runs` times, each time in a
/// fresh environment with its own configuration overlay.
pub struct TestSpecification {
    pub name: String,
    pub test_cmd: String,
    pub nr_of_test_runs: u8,
    pub test_length: Option<String>,
    pub path_config: String,
}

/// A whole plan: the image every environment is copied from, the profiles
/// applied at creation (in order), and the tests.
pub struct TestOutline {
    pub source_container: String,
    pub container_profiles: Vec<String>,
    pub test_spec: Vec<TestSpecification>,
}

/// One concrete run of a test, as the orchestration loop sees it.
pub struct RunInstance {
    pub environment_id: Seq<char>,
    pub command: Seq<char>,
    pub base_path: Seq<char>,
    pub timeout: Option<Seq<char>>,
}

pub open spec fn opt_view(o: Option<String>) -> Option<Seq<char>> {
    match o {
        Some(s) => Some(s@),
        None => None,
    }
}

pub open spec fn digit_text(d: nat) -> Seq<char> {
    if d == 0 { "0"@ }
    else if d == 1 { "1"@ }
    else if d == 2 { "2"@ }
    else if d == 3 { "3"@ }
    else if d == 4 { "4"@ }
    else if d == 5 { "5"@ }
    else if d == 6 { "6"@ }
    else if d == 7 { "7"@ }
    else if d == 8 { "8"@ }
    else { "9"@ }
}

/// Decimal notation of a natural number, without leading zeros.
pub open spec fn decimal(n: nat) -> Seq<char>
    decreases n,
{
    if n < 10 {
        digit_text(n)
    } else {
        decimal(n / 10) + digit_text(n % 10)
    }
}

/// `name-index`: the identifier of a run's environment.
pub open spec fn environment_id(name: Seq<char>, index: nat) -> Seq<char> {
    name + "-"@ + decimal(index)
}

/// The runs of one test, in index order.
pub open spec fn spec_runs(t: TestSpecification) -> Seq<RunInstance> {
    Seq::new(
        t.nr_of_test_runs as nat,
        |i: int|
            RunInstance {
                environment_id: environment_id(t.name@, i as nat),
                command: t.test_cmd@,
                base_path: t.path_config@,
                timeout: opt_view(t.test_length),
            },
    )
}

/// The runs of a sequence of tests: test by test, each in index order.
pub open spec fn plan_runs(tests: Seq<TestSpecification>) -> Seq<RunInstance>
    decreases tests.len(),
{
    if tests.len() == 0 {
        Seq::empty()
    } else {
        plan_runs(tests.drop_last()) + spec_runs(tests.last())
    }
}

/// The environment identifiers of a sequence of tests, in run order.
pub open spec fn plan_ids(tests: Seq<TestSpecification>) -> Seq<Seq<char>> {
    plan_runs(tests).map_values(|r: RunInstance| r.environment_id)
}

/// The runs before test `j`, followed by the runs of test `j`, are the runs
/// of the first `j + 1` tests.
pub proof fn lemma_plan_runs_step(tests: Seq<TestSpecification>, j: int)
    requires
        0 <= j < tests.len(),
    ensures
        plan_runs(tests.subrange(0, j + 1)) == plan_runs(tests.subrange(0, j)) + spec_runs(tests[j]),
{
    assert(tests.subrange(0, j + 1).drop_last() =~= tests.subrange(0, j));
}

/// The runs of a prefix of the tests are a prefix of the runs of all tests.
pub proof fn lemma_plan_runs_prefix(tests: Seq<TestSpecification>, j: int)
    requires
        0 <= j <= tests.len(),
    ensures
        plan_runs(tests.subrange(0, j)).len() <= plan_runs(tests).len(),
        plan_runs(tests.subrange(0, j)) =~= plan_runs(tests).subrange(
            0,
            plan_runs(tests.subrange(0, j)).len() as int,
        ),
    decreases tests.len() - j,
{
    if j == tests.len() {
        assert(tests.subrange(0, j) =~= tests);
    } else {
        lemma_plan_runs_prefix(tests, j + 1);
        lemma_plan_runs_step(tests, j);
    }
}

/// Run `r` of test `j` stands in the flattened run list right after the runs
/// of the tests before `j`.
pub proof fn lemma_plan_runs_index(tests: Seq<TestSpecification>, j: int, r: int)
    requires
        0 <= j < tests.len(),
        0 <= r < tests[j].nr_of_test_runs,
    ensures
        plan_runs(tests.subrange(0, j)).len() + r < plan_runs(tests).len(),
        plan_runs(tests)[plan_runs(tests.subrange(0, j)).len() + r] == spec_runs(tests[j])[r],
{
    lemma_plan_runs_prefix(tests, j + 1);
    lemma_plan_runs_step(tests, j);
    let before = plan_runs(tests.subrange(0, j));
    let upto = plan_runs(tests.subrange(0, j + 1));
    assert(upto[before.len() + r] == spec_runs(tests[j])[r]);
}

fn digit_string(d: u8) -> (r: String)
    requires
        d < 10,
    ensures
        r@ == digit_text(d as nat),
{
    if d == 0 { String::from_str("0") }
    else if d == 1 { String::from_str("1") }
    else if d == 2 { String::from_str("2") }
    else if d == 3 { String::from_str("3") }
    else if d == 4 { String::from_str("4") }
    else if d == 5 { String::from_str("5") }
    else if d == 6 { String::from_str("6") }
    else if d == 7 { String::from_str("7") }
    else if d == 8 { String::from_str("8") }
    else { String::from_str("9") }
}

/// Decimal notation of `n`.
pub fn decimal_string(n: u8) -> (r: String)
    ensures
        r@ == decimal(n as nat),
{
    if n < 10 {
        digit_string(n)
    } else if n < 100 {
        let hi = digit_string(n / 10);
        let lo = digit_string(n % 10);
        assert(decimal(n as nat) == decimal((n / 10) as nat) + digit_text((n % 10) as nat));
        hi.concat(lo.as_str())
    } else {
        let h = digit_string(n / 100);
        let t = digit_string((n / 10) % 10);
        let o = digit_string(n % 10);
        assert(decimal((n / 10) as nat) == decimal((n / 100) as nat) + digit_text(((n / 10) % 10) as nat));
        assert(decimal(n as nat) == decimal((n / 10) as nat) + digit_text((n % 10) as nat));
        h.concat(t.as_str()).concat(o.as_str())
    }
}

/// The identifier of run `index` of the test called `name`.
pub fn make_environment_id(name: &String, index: u8) -> (r: String)
    ensures
        r@ == environment_id(name@, index as nat),
{
    let digits = decimal_string(index);
    name.clone().concat("-").concat(digits.as_str())
}


/// One line per profile.
pub open spec fn profile_lines(profiles: Seq<Seq<char>>) -> Seq<char>
    decreases profiles.len(),
{
    if profiles.len() == 0 {
        Seq::empty()
    } else {
        profile_lines(profiles.drop_last()) + profiles.last() + "\n"@
    }
}

/// One line per test: its command and how many runs it makes.
pub open spec fn test_lines(tests: Seq<TestSpecification>) -> Seq<char>
    decreases tests.len(),
{
    if tests.len() == 0 {
        Seq::empty()
    } else {
        test_lines(tests.drop_last()) + "Test cmd: "@ + tests.last().test_cmd@
            + ", Amount of test runs: "@ + decimal(tests.last().nr_of_test_runs as nat) + "\n"@
    }
}

/// The human-readable summary of a plan.
pub open spec fn outline_text(o: TestOutline) -> Seq<char> {
    "Source container: "@ + o.source_container@ + "\nContainer profiles to apply: \n"@
        + profile_lines(o.container_profiles@.map_values(|p: String| p@)) + "Tests: \n"@
        + test_lines(o.test_spec@)
}

/// Why a plan cannot be run.
pub enum PlanError {
    /// Two runs of the plan would use the environment with this identifier.
    DuplicateEnvironment(String),
}

impl TestOutline {
    /// The human-readable summary of the plan: its source, its profiles one
    /// per line, and each test's command with its number of runs.
    pub fn describe(&self) -> (r: String)
        ensures
            r@ == outline_text(*self),
    {
        let ghost profiles = self.container_profiles@.map_values(|p: String| p@);
        let mut text = String::from_str("Source container: ")
            .concat(self.source_container.as_str())
            .concat("\nContainer profiles to apply: \n");
        let ghost head = text@;
        let mut i: usize = 0;
        while i < self.container_profiles.len()
            invariant
                profiles == self.container_profiles@.map_values(|p: String| p@),
                0 <= i <= profiles.len(),
                text@ == head + profile_lines(profiles.subrange(0, i as int)),
            decreases profiles.len() - i,
        {
            assert(profiles.subrange(0, i + 1).drop_last() =~= profiles.subrange(0, i as int));
            text = text.concat(self.container_profiles[i].as_str()).concat("\n");
            i = i + 1;
        }
        assert(profiles.subrange(0, i as int) =~= profiles);
        text = text.concat("Tests: \n");
        let ghost mid = text@;
        let ghost tests = self.test_spec@;
        let mut j: usize = 0;
        while j < self.test_spec.len()
            invariant
                tests == self.test_spec@,
                0 <= j <= tests.len(),
                text@ == mid + test_lines(tests.subrange(0, j as int)),
            decreases tests.len() - j,
        {
            assert(tests.subrange(0, j + 1).drop_last() =~= tests.subrange(0, j as int));
            let t = &self.test_spec[j];
            let count = decimal_string(t.nr_of_test_runs);
            text = text.concat("Test cmd: ").concat(t.test_cmd.as_str())
                .concat(", Amount of test runs: ").concat(count.as_str()).concat("\n");
            j = j + 1;
        }
        assert(tests.subrange(0, j as int) =~= tests);
        text
    }

    /// The identifiers of every run's environment, test by test, each test's
    /// runs in index order.
    pub fn environment_ids(&self) -> (r: Vec<String>)
        ensures
            r@.map_values(|s: String| s@) == plan_ids(self.test_spec@),
    {
        let ghost tests = self.test_spec@;
        let mut ids: Vec<String> = Vec::new();
        let mut j: usize = 0;
        while j < self.test_spec.len()
            invariant
                tests == self.test_spec@,
                0 <= j <= tests.len(),
                ids@.map_values(|s: String| s@) =~= plan_ids(tests.subrange(0, j as int)),
            decreases tests.len() - j,
        {
            let t = &self.test_spec[j];
            proof {
                lemma_plan_runs_step(tests, j as int);
            }
            let mut i: u8 = 0;
            while i < t.nr_of_test_runs
                invariant
                    tests == self.test_spec@,
                    0 <= j < tests.len(),
                    *t == tests[j as int],
                    0 <= i <= t.nr_of_test_runs,
                    plan_runs(tests.subrange(0, j as int + 1)) == plan_runs(tests.subrange(0, j as int)) + spec_runs(tests[j as int]),
                    ids@.map_values(|s: String| s@) =~= plan_ids(tests.subrange(0, j as int)) + spec_runs(*t).subrange(0, i as int).map_values(|r: RunInstance| r.environment_id),
                decreases t.nr_of_test_runs - i,
            {
                let id = make_environment_id(&t.name, i);
                let ghost before = ids@;
                ids.push(id);
                assert(ids@.map_values(|s: String| s@) =~= before.map_values(|s: String| s@).push(id@));
                assert(spec_runs(*t).subrange(0, i + 1).map_values(|r: RunInstance| r.environment_id)
                    =~= spec_runs(*t).subrange(0, i as int).map_values(|r: RunInstance| r.environment_id).push(id@));
                i = i + 1;
            }
            assert(spec_runs(*t).subrange(0, i as int) =~= spec_runs(*t));
            assert(plan_ids(tests.subrange(0, j + 1)) =~= plan_ids(tests.subrange(0, j as int)) + spec_runs(*t).map_values(|r: RunInstance| r.environment_id));
            j = j + 1;
        }
        assert(tests.subrange(0, j as int) =~= tests);
        ids
    }

    /// How many runs the whole plan makes.
    pub fn total_test_runs(&self) -> (r: u128)
        ensures
            r == plan_runs(self.test_spec@).len(),
    {
        let ghost tests = self.test_spec@;
        let mut total: u128 = 0;
        let mut j: usize = 0;
        while j < self.test_spec.len()
            invariant
                tests == self.test_spec@,
                0 <= j <= tests.len(),
                total == plan_runs(tests.subrange(0, j as int)).len(),
                total <= 255 * j,
            decreases tests.len() - j,
        {
            proof {
                lemma_plan_runs_step(tests, j as int);
            }
            total = total + self.test_spec[j].nr_of_test_runs as u128;
            j = j + 1;
        }
        assert(tests.subrange(0, j as int) =~= tests);
        total
    }

    /// Checks that no two runs of the plan share an environment identifier;
    /// on a clash, names the identifier.
    pub fn validate(&self) -> (r: Result<(), PlanError>)
        ensures
            r is Ok <==> plan_ids(self.test_spec@).no_duplicates(),
            r matches Err(PlanError::DuplicateEnvironment(id)) ==> exists|a: int, b: int|
                0 <= a < b < plan_ids(self.test_spec@).len()
                && plan_ids(self.test_spec@)[a] == id@
                && plan_ids(self.test_spec@)[b] == id@,
    {
        let ids = self.environment_ids();
        let ghost v = ids@.map_values(|s: String| s@);
        let mut b: usize = 0;
        while b < ids.len()
            invariant
                v == ids@.map_values(|s: String| s@),
                v == plan_ids(self.test_spec@),
                0 <= b <= ids.len(),
                forall|x: int, y: int| 0 <= x < y < b ==> v[x] != v[y],
            decreases ids.len() - b,
        {
            let mut a: usize = 0;
            while a < b
                invariant
                    v == ids@.map_values(|s: String| s@),
                    v == plan_ids(self.test_spec@),
                v == plan_ids(self.test_spec@),
                    0 <= a <= b < ids.len(),
                    forall|x: int, y: int| 0 <= x < y < b ==> v[x] != v[y],
                    forall|x: int| 0 <= x < a ==> v[x] != v[b as int],
                decreases b - a,
            {
                if ids[a] == ids[b] {
                    let dup = ids[b].clone();
                    assert(v[a as int] == dup@ && v[b as int] == dup@);
                    assert(!v.no_duplicates());
                    return Err(PlanError::DuplicateEnvironment(dup));
                }
                a = a + 1;
            }
            b = b + 1;
        }
        assert(v.no_duplicates());
        Ok(())
    }
}

} // verus!
