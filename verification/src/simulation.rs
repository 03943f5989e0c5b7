//! Simulation harness: permit and deny test cases for deployed policies.
use vstd::prelude::*;

use crate::context::{Context, ContextRule, Signer, Val};
use crate::storage::{Address, PolicyResult};
use crate::text::{str_eq, to_owned_string};

verus! {

// ── Test case definitions ──────────────────────────────────────────────────

/// A change applied to the original transaction.
#[derive(Debug)]
pub enum TestMutation {
    /// Increase amount beyond limit
    AmountOverLimit(u64),
    /// Call outside time window
    OutsideTimeWindow,
    /// Exceed frequency limit
    ExceedFrequency,
    /// Call unauthorized contract
    UnauthorizedContract,
    /// Call unauthorized function
    UnauthorizedFunction,
    /// Combination of multiple violations
    CombinedViolation(Vec<TestMutation>),
}

/// One test case.
#[derive(Debug)]
pub struct TestCase {
    /// Description of the test case
    pub description: String,
    /// Mutation to apply to the original transaction
    pub mutation: TestMutation,
    /// Expected result (true = should pass, false = should fail)
    pub should_pass: bool,
}

/// The outcome of one test case.
#[derive(Clone, Debug)]
pub struct TestResult {
    /// Test case description
    pub description: String,
    /// Whether the test passed
    pub passed: bool,
    /// Details about the test execution
    pub details: String,
}

/// The content of a [`TestMutation`].
pub enum MutationView {
    AmountOverLimit(u64),
    OutsideTimeWindow,
    ExceedFrequency,
    UnauthorizedContract,
    UnauthorizedFunction,
    CombinedViolation(Seq<MutationView>),
}

/// The content of a mutation.
pub open spec fn mutation_view(m: &TestMutation) -> MutationView
    decreases m, 0nat,
{
    match m {
        TestMutation::AmountOverLimit(n) => MutationView::AmountOverLimit(*n),
        TestMutation::OutsideTimeWindow => MutationView::OutsideTimeWindow,
        TestMutation::ExceedFrequency => MutationView::ExceedFrequency,
        TestMutation::UnauthorizedContract => MutationView::UnauthorizedContract,
        TestMutation::UnauthorizedFunction => MutationView::UnauthorizedFunction,
        TestMutation::CombinedViolation(v) => MutationView::CombinedViolation(mutations_view(v@)),
    }
}

/// The contents of a list of mutations.
pub open spec fn mutations_view(s: Seq<TestMutation>) -> Seq<MutationView>
    decreases s, 0nat,
{
    if s.len() == 0 {
        Seq::empty()
    } else {
        mutations_view(s.drop_last()).push(mutation_view(&s.last()))
    }
}

impl View for TestMutation {
    type V = MutationView;

    open spec fn view(&self) -> MutationView {
        mutation_view(self)
    }
}

impl TestMutation {
    /// A copy of this mutation, with the same content.
    #[verifier::loop_isolation(false)]
    pub fn duplicate(&self) -> (r: Self)
        ensures
            r@ == self@,
        decreases self,
    {
        match self {
            TestMutation::AmountOverLimit(n) => TestMutation::AmountOverLimit(*n),
            TestMutation::OutsideTimeWindow => TestMutation::OutsideTimeWindow,
            TestMutation::ExceedFrequency => TestMutation::ExceedFrequency,
            TestMutation::UnauthorizedContract => TestMutation::UnauthorizedContract,
            TestMutation::UnauthorizedFunction => TestMutation::UnauthorizedFunction,
            TestMutation::CombinedViolation(v) => {
                let mut w: Vec<TestMutation> = Vec::new();
                let mut i: usize = 0;
                while i < v.len()
                    invariant
                        i <= v@.len(),
                        mutations_view(w@) == mutations_view(v@.subrange(0, i as int)),
                    decreases v.len() - i,
                {
                    proof {
                        vstd::std_specs::vec::axiom_vec_index_decreases(*v, i as int);
                        assert(decreases_to!(*self => self->CombinedViolation_0));
                    }
                    let d = v[i].duplicate();
                    let ghost before = w@;
                    w.push(d);
                    proof {
                        assert(w@.drop_last() =~= before);
                        assert(v@.subrange(0, i + 1).drop_last() =~= v@.subrange(0, i as int));
                    }
                    i = i + 1;
                }
                assert(v@.subrange(0, v@.len() as int) =~= v@);
                TestMutation::CombinedViolation(w)
            },
        }
    }
}

impl Clone for TestMutation {
    fn clone(&self) -> Self {
        self.duplicate()
    }
}

impl Clone for TestCase {
    fn clone(&self) -> Self {
        TestCase { description: self.description.clone(), mutation: self.mutation.duplicate(), should_pass: self.should_pass }
    }
}

/// The details reported for an executed test case.
pub const EXECUTED: &'static str = "Test executed (placeholder)";

/// `c` is a case with this description, mutation and expectation.
pub open spec fn is_case(c: TestCase, description: Seq<char>, mutation: TestMutation, should_pass: bool) -> bool {
    c.description@ == description && c.mutation == mutation && c.should_pass == should_pass
}

/// `t` is the standard case list for `policy_type`.
pub open spec fn standard_tests(policy_type: Seq<char>, t: Seq<TestCase>) -> bool {
    if policy_type == "spending_limit"@ {
        t.len() == 2 && is_case(t[0], "Amount within limit"@, TestMutation::AmountOverLimit(500), true)
            && is_case(t[1], "Amount over limit"@, TestMutation::AmountOverLimit(1500), false)
    } else if policy_type == "time_window"@ {
        t.len() == 2 && is_case(t[0], "Within time window"@, TestMutation::OutsideTimeWindow, true)
            && is_case(t[1], "Outside time window"@, TestMutation::OutsideTimeWindow, false)
    } else if policy_type == "frequency_limit"@ {
        t.len() == 2 && is_case(t[0], "Within frequency limit"@, TestMutation::ExceedFrequency, true)
            && is_case(t[1], "Exceed frequency limit"@, TestMutation::ExceedFrequency, false)
    } else if policy_type == "allowlist"@ {
        t.len() == 2 && is_case(t[0], "Authorized contract"@, TestMutation::UnauthorizedContract, true)
            && is_case(t[1], "Unauthorized contract"@, TestMutation::UnauthorizedContract, false)
    } else if policy_type == "composite"@ {
        &&& t.len() == 1
        &&& t[0].description@ == "Multiple violations"@
        &&& !t[0].should_pass
        &&& t[0].mutation matches TestMutation::CombinedViolation(v) && v@.len() == 2 && v@[0]
            == TestMutation::AmountOverLimit(1500) && v@[1] == TestMutation::OutsideTimeWindow
    } else {
        t.len() == 1 && is_case(t[0], "Basic permit test"@, TestMutation::AmountOverLimit(0), true)
    }
}

/// `r` is the result of running `c`: the case's description, passed, with
/// the executed-case details.
pub open spec fn is_result_of(r: TestResult, c: TestCase) -> bool {
    r.description@ == c.description@ && r.passed && r.details@ == EXECUTED@
}

fn case(description: &str, mutation: TestMutation, should_pass: bool) -> (c: TestCase)
    ensures
        is_case(c, description@, mutation, should_pass),
{
    TestCase { description: to_owned_string(description), mutation, should_pass }
}

// ── Harness contract ───────────────────────────────────────────────────────

/// The simulation harness contract.
#[derive(Clone, Copy, Debug)]
pub struct SimulationHarness;

impl SimulationHarness {
    /// Run a single test case against a policy. The policy is not called:
    /// every case is reported as passed.
    pub fn run_test_case(
        &self,
        policy_address: &Address,
        rule: &ContextRule,
        signer: &Signer,
        context: &Vec<Context>,
        auth_context: &Val,
        test_case: TestCase,
    ) -> (r: PolicyResult<TestResult>)
        ensures
            r matches Ok(t) && is_result_of(t, test_case),
    {
        let _ = (policy_address, rule, signer, context, auth_context);
        Ok(TestResult { description: test_case.description, passed: true, details: to_owned_string(EXECUTED) })
    }

    /// Run multiple test cases against a policy, in order.
    pub fn run_test_suite(
        &self,
        policy_address: &Address,
        rule: &ContextRule,
        signer: &Signer,
        context: &Vec<Context>,
        auth_context: &Val,
        test_cases: Vec<TestCase>,
    ) -> (r: PolicyResult<Vec<TestResult>>)
        ensures
            r matches Ok(v) && v@.len() == test_cases@.len() && forall|i: int|
                0 <= i < v@.len() ==> is_result_of(#[trigger] v@[i], test_cases@[i]),
    {
        let ghost all = test_cases@;
        let mut remaining = test_cases;
        let mut results: Vec<TestResult> = Vec::new();
        while remaining.len() > 0
            invariant
                results@.len() + remaining@.len() == all.len(),
                remaining@ == all.subrange(results@.len() as int, all.len() as int),
                forall|k: int| 0 <= k < results@.len() ==> is_result_of(#[trigger] results@[k], all[k]),
            decreases remaining.len(),
        {
            let ghost done = results@.len();
            let test_case = remaining.remove(0);
            assert(test_case == all[done as int]);
            let result = match self.run_test_case(policy_address, rule, signer, context, auth_context, test_case) {
                Ok(t) => t,
                Err(e) => {
                    return Err(e);
                },
            };
            results.push(result);
            assert(remaining@ =~= all.subrange(results@.len() as int, all.len() as int));
        }
        Ok(results)
    }

    /// Generate standard test cases for a policy type.
    pub fn generate_standard_tests(&self, policy_type: &str) -> (r: PolicyResult<Vec<TestCase>>)
        ensures
            r matches Ok(t) && standard_tests(policy_type@, t@),
    {
        let mut test_cases: Vec<TestCase> = Vec::new();
        if str_eq(policy_type, "spending_limit") {
            test_cases.push(case("Amount within limit", TestMutation::AmountOverLimit(500), true));
            test_cases.push(case("Amount over limit", TestMutation::AmountOverLimit(1500), false));
        } else if str_eq(policy_type, "time_window") {
            test_cases.push(case("Within time window", TestMutation::OutsideTimeWindow, true));
            test_cases.push(case("Outside time window", TestMutation::OutsideTimeWindow, false));
        } else if str_eq(policy_type, "frequency_limit") {
            test_cases.push(case("Within frequency limit", TestMutation::ExceedFrequency, true));
            test_cases.push(case("Exceed frequency limit", TestMutation::ExceedFrequency, false));
        } else if str_eq(policy_type, "allowlist") {
            test_cases.push(case("Authorized contract", TestMutation::UnauthorizedContract, true));
            test_cases.push(case("Unauthorized contract", TestMutation::UnauthorizedContract, false));
        } else if str_eq(policy_type, "composite") {
            let mut combined: Vec<TestMutation> = Vec::new();
            combined.push(TestMutation::AmountOverLimit(1500));
            combined.push(TestMutation::OutsideTimeWindow);
            test_cases.push(TestCase {
                description: to_owned_string("Multiple violations"),
                mutation: TestMutation::CombinedViolation(combined),
                should_pass: false,
            });
        } else {
            test_cases.push(case("Basic permit test", TestMutation::AmountOverLimit(0), true));
        }
        Ok(test_cases)
    }

    /// Run standard test suite for a policy.
    pub fn run_standard_suite(
        &self,
        policy_address: &Address,
        rule: &ContextRule,
        signer: &Signer,
        context: &Vec<Context>,
        auth_context: &Val,
        policy_type: &str,
    ) -> (r: PolicyResult<Vec<TestResult>>)
        ensures
            r matches Ok(v) && exists|t: Seq<TestCase>|
                standard_tests(policy_type@, t) && v@.len() == t.len() && forall|i: int|
                    0 <= i < v@.len() ==> is_result_of(#[trigger] v@[i], t[i]),
    {
        let test_cases = match self.generate_standard_tests(policy_type) {
            Ok(t) => t,
            Err(e) => {
                return Err(e);
            },
        };
        let ghost t = test_cases@;
        let r = self.run_test_suite(policy_address, rule, signer, context, auth_context, test_cases);
        assert(r matches Ok(v) && standard_tests(policy_type@, t) && v@.len() == t.len() && forall|i: int|
            0 <= i < v@.len() ==> is_result_of(#[trigger] v@[i], t[i]));
        r
    }
}

} // verus!
