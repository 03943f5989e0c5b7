//! The harness: the original transaction must pass the synthesized policy,
//! and five standard mutations of it must all be denied.
use vstd::prelude::*;

use crate::deny::{DenyCase, DenyCaseView, deny_cases_ready, deny_ready, deny_result_spec, evaluate_deny_case, run_deny_cases, standard_results};
use crate::manifest::{CallManifest, CallManifestView};
use crate::permit::{evaluable, is_evaluable, permit_result_spec, run_permit_case};
use crate::policy_spec::{PolicySpec, PolicySpecView};
use crate::text::{join, join_spec, push_str, to_owned_string, views};

verus! {

/// Expected or actual outcome of a test case.
#[derive(Clone, Copy, Debug, PartialEq, Eq, Structural)]
pub enum TestOutcome {
    Permit,
    Deny,
}

/// The result of one test case.
#[derive(Debug)]
pub struct HarnessResult {
    /// Descriptive name of the case
    pub case_name: String,
    /// Mutation applied (None for the original)
    pub mutation: Option<String>,
    /// Expected outcome
    pub expected: TestOutcome,
    /// Actual outcome of the policy evaluation
    pub actual: TestOutcome,
    /// Whether the actual outcome is the expected one
    pub passed: bool,
    /// Details of the evaluation
    pub details: String,
}

/// The full harness report.
#[derive(Debug)]
pub struct HarnessReport {
    /// The original transaction's result: must be Permit
    pub permit_result: HarnessResult,
    /// Mutation results: must all be Deny
    pub deny_results: Vec<HarnessResult>,
    /// True only if the permit case passed and every deny case did
    pub passed: bool,
    /// Human-readable full report
    pub report: String,
}

/// The content of a [`HarnessResult`].
pub struct HarnessResultView {
    pub case_name: Seq<char>,
    pub mutation: Option<Seq<char>>,
    pub expected: TestOutcome,
    pub actual: TestOutcome,
    pub passed: bool,
    pub details: Seq<char>,
}

impl View for HarnessResult {
    type V = HarnessResultView;

    open spec fn view(&self) -> HarnessResultView {
        HarnessResultView {
            case_name: self.case_name@,
            mutation: self.mutation.deep_view(),
            expected: self.expected,
            actual: self.actual,
            passed: self.passed,
            details: self.details@,
        }
    }
}

/// The contents of a list of results.
pub open spec fn results_view(s: Seq<HarnessResult>) -> Seq<HarnessResultView> {
    s.map_values(|r: HarnessResult| r@)
}

/// Every result in the list passed.
pub open spec fn all_passed(s: Seq<HarnessResultView>) -> bool {
    forall|i: int| 0 <= i < s.len() ==> (#[trigger] s[i]).passed
}

impl HarnessResult {
    /// A copy with the same content.
    pub fn duplicate(&self) -> (r: Self)
        ensures
            r@ == self@,
    {
        HarnessResult {
            case_name: self.case_name.clone(),
            mutation: crate::text::clone_opt(&self.mutation),
            expected: self.expected,
            actual: self.actual,
            passed: self.passed,
            details: self.details.clone(),
        }
    }
}

impl Clone for HarnessResult {
    fn clone(&self) -> Self {
        self.duplicate()
    }
}

// ── The report ───────────────────────────────────────────────────────────────

/// The rule drawn above and below the title.
pub open spec fn rule_line() -> Seq<char> {
    "═══════════════════════════════════════"@
}

/// A check mark or a cross.
pub open spec fn mark(passed: bool) -> Seq<char> {
    if passed {
        "✅"@
    } else {
        "❌"@
    }
}

/// The line of the permit case.
pub open spec fn permit_line(p: HarnessResultView) -> Seq<char> {
    "PERMIT: "@ + (if p.passed {
        "✅ PASS"@
    } else {
        "❌ FAIL"@
    }) + " — "@ + p.details
}

/// The line of a deny case.
pub open spec fn deny_line(d: HarnessResultView) -> Seq<char> {
    "  "@ + mark(d.passed) + " ["@ + d.case_name + "]: "@ + (match d.mutation {
        Some(x) => x,
        None => "—"@,
    }) + " — "@ + d.details
}

/// The closing verdict.
pub open spec fn overall_line(passed: bool) -> Seq<char> {
    "OVERALL: "@ + (if passed {
        "✅ ALL CASES PASSED — safe to generate code"@
    } else {
        "❌ HARNESS FAILED — re-synthesize with tighter constraints"@
    })
}

/// The lines of the report.
pub open spec fn report_lines(p: HarnessResultView, ds: Seq<HarnessResultView>, passed: bool) -> Seq<Seq<char>> {
    seq![
        rule_line(),
        " OZ Policy Builder — Harness Report"@,
        rule_line(),
        permit_line(p),
        Seq::empty(),
        "DENY CASES:"@,
    ] + ds.map_values(|d: HarnessResultView| deny_line(d)) + seq![Seq::empty(), overall_line(passed)]
}

/// The report: its lines joined by newlines.
pub open spec fn report_spec(p: HarnessResultView, ds: Seq<HarnessResultView>, passed: bool) -> Seq<char> {
    join_spec(report_lines(p, ds, passed), "\n"@)
}

/// The human-readable report of a harness run.
pub fn build_report(permit: &HarnessResult, deny_results: &Vec<HarnessResult>, passed: bool) -> (r: String)
    ensures
        r@ == report_spec(permit@, results_view(deny_results@), passed),
{
    let mut lines: Vec<String> = Vec::new();
    lines.push(to_owned_string("═══════════════════════════════════════"));
    lines.push(to_owned_string(" OZ Policy Builder — Harness Report"));
    lines.push(to_owned_string("═══════════════════════════════════════"));
    let mut permit_text = to_owned_string("PERMIT: ");
    push_str(&mut permit_text, if permit.passed { "✅ PASS" } else { "❌ FAIL" });
    push_str(&mut permit_text, " — ");
    push_str(&mut permit_text, permit.details.as_str());
    lines.push(permit_text);
    lines.push(String::new());
    lines.push(to_owned_string("DENY CASES:"));
    let ghost head = views(lines@);
    assert(head =~= seq![
        rule_line(),
        " OZ Policy Builder — Harness Report"@,
        rule_line(),
        permit_line(permit@),
        Seq::<char>::empty(),
        "DENY CASES:"@,
    ]);
    let mut i: usize = 0;
    while i < deny_results.len()
        invariant
            i <= deny_results@.len(),
            lines@.len() == 6 + i,
            views(lines@).subrange(0, 6) == head,
            forall|k: int| 6 <= k < 6 + i ==> #[trigger] lines@[k]@ == deny_line(deny_results@[k - 6]@),
        decreases deny_results.len() - i,
    {
        let d = &deny_results[i];
        let mut line = to_owned_string("  ");
        push_str(&mut line, if d.passed { "✅" } else { "❌" });
        push_str(&mut line, " [");
        push_str(&mut line, d.case_name.as_str());
        push_str(&mut line, "]: ");
        match &d.mutation {
            Some(m) => push_str(&mut line, m.as_str()),
            None => push_str(&mut line, "—"),
        }
        push_str(&mut line, " — ");
        push_str(&mut line, d.details.as_str());
        assert(line@ =~= deny_line(d@));
        let ghost before = lines@;
        lines.push(line);
        assert(views(lines@).subrange(0, 6) =~= views(before).subrange(0, 6));
        i = i + 1;
    }
    lines.push(String::new());
    let mut overall = to_owned_string("OVERALL: ");
    push_str(
        &mut overall,
        if passed {
            "✅ ALL CASES PASSED — safe to generate code"
        } else {
            "❌ HARNESS FAILED — re-synthesize with tighter constraints"
        },
    );
    lines.push(overall);
    assert(views(lines@) =~= report_lines(permit@, results_view(deny_results@), passed));
    join(&lines, "\n")
}

/// The contents of a list of deny cases.
pub open spec fn cases_view(s: Seq<DenyCase>) -> Seq<DenyCaseView> {
    s.map_values(|c: DenyCase| c@)
}

/// The caller's extra deny cases.
pub open spec fn custom_cases(c: Option<Vec<DenyCase>>) -> Seq<DenyCaseView> {
    match c {
        Some(v) => cases_view(v@),
        None => Seq::empty(),
    }
}

/// Everything the harness evaluates can be evaluated.
pub open spec fn harness_ready(s: PolicySpecView, m: CallManifestView, extra: Seq<DenyCaseView>) -> bool {
    &&& evaluable(s, m)
    &&& deny_ready(s, m)
    &&& forall|i: int| 0 <= i < extra.len() ==> evaluable(s, (#[trigger] extra[i]).mutated_manifest)
}

/// Whether the harness can run the policy against the manifest and the
/// extra deny cases (see [`harness_ready`]).
pub fn harness_can_run(spec: &PolicySpec, manifest: &CallManifest, custom_deny_cases: &Option<Vec<DenyCase>>) -> (r: bool)
    ensures
        r == harness_ready(spec@, manifest@, custom_cases(*custom_deny_cases)),
{
    if !is_evaluable(spec, manifest) || !deny_cases_ready(spec, manifest) {
        return false;
    }
    let ghost extra = custom_cases(*custom_deny_cases);
    match custom_deny_cases {
        Some(cases) => {
            let mut i: usize = 0;
            while i < cases.len()
                invariant
                    extra == cases_view(cases@),
                    extra == custom_cases(*custom_deny_cases),
                    evaluable(spec@, manifest@) && deny_ready(spec@, manifest@),
                    i <= cases@.len(),
                    forall|k: int| 0 <= k < i ==> evaluable(spec@, (#[trigger] extra[k]).mutated_manifest),
                decreases cases.len() - i,
            {
                assert(extra[i as int] == cases@[i as int]@);
                if !is_evaluable(spec, &cases[i].mutated_manifest) {
                    return false;
                }
                i = i + 1;
            }
            true
        },
        None => true,
    }
}

/// Runs the full harness: the permit case, the five standard deny cases,
/// then the caller's extra deny cases.
pub fn run_harness(spec: &PolicySpec, manifest: &CallManifest, custom_deny_cases: Option<Vec<DenyCase>>) -> (r:
    HarnessReport)
    requires
        harness_ready(spec@, manifest@, custom_cases(custom_deny_cases)),
    ensures
        r.permit_result@ == permit_result_spec(spec@, manifest@),
        results_view(r.deny_results@) == standard_results(spec@, manifest@) + custom_cases(
            custom_deny_cases,
        ).map_values(|c: DenyCaseView| deny_result_spec(spec@, c)),
        r.passed == (r.permit_result@.passed && all_passed(results_view(r.deny_results@))),
        r.report@ == report_spec(r.permit_result@, results_view(r.deny_results@), r.passed),
{
    let ghost extra = custom_cases(custom_deny_cases);
    let permit_result = run_permit_case(spec, manifest);
    let mut deny_results = run_deny_cases(spec, manifest);
    let ghost standard = results_view(deny_results@);
    match custom_deny_cases {
        Some(cases) => {
            let mut i: usize = 0;
            while i < cases.len()
                invariant
                    extra == cases_view(cases@),
                    forall|k: int| 0 <= k < extra.len() ==> evaluable(spec@, (#[trigger] extra[k]).mutated_manifest),
                    i <= cases@.len(),
                    deny_results@.len() == 5 + i,
                    standard.len() == 5,
                    results_view(deny_results@).subrange(0, 5) == standard,
                    forall|k: int| 5 <= k < 5 + i ==> #[trigger] deny_results@[k]@ == deny_result_spec(spec@, extra[k - 5]),
                decreases cases.len() - i,
            {
                assert(extra[i as int] == cases@[i as int]@);
                let r = evaluate_deny_case(spec, manifest, &cases[i]);
                let ghost before = deny_results@;
                deny_results.push(r);
                assert(results_view(deny_results@).subrange(0, 5) =~= results_view(before).subrange(0, 5));
                i = i + 1;
            }
            assert(results_view(deny_results@) =~= standard + extra.map_values(
                |c: DenyCaseView| deny_result_spec(spec@, c),
            ));
        },
        None => {
            assert(results_view(deny_results@) =~= standard + extra.map_values(
                |c: DenyCaseView| deny_result_spec(spec@, c),
            ));
        },
    }
    let mut all_deny_passed = true;
    let mut i: usize = 0;
    while i < deny_results.len()
        invariant
            i <= deny_results@.len(),
            all_deny_passed == forall|k: int| 0 <= k < i ==> (#[trigger] results_view(deny_results@)[k]).passed,
        decreases deny_results.len() - i,
    {
        assert(results_view(deny_results@)[i as int].passed == deny_results@[i as int].passed);
        if !deny_results[i].passed {
            all_deny_passed = false;
        }
        i = i + 1;
    }
    assert(all_deny_passed == all_passed(results_view(deny_results@)));
    let passed = permit_result.passed && all_deny_passed;
    let report = build_report(&permit_result, &deny_results, passed);
    HarnessReport { permit_result, deny_results, passed, report }
}

/// Each deny case has its own line in the report, after the six heading
/// lines, in order; it starts with "  ✅" when the case passed and with
/// "  ❌" when it failed, followed by the case's name in brackets.
pub proof fn lemma_report_marks(p: HarnessResultView, ds: Seq<HarnessResultView>, passed: bool)
    ensures
        report_lines(p, ds, passed).len() == ds.len() + 8,
        forall|k: int|
            0 <= k < ds.len() ==> {
                let line = #[trigger] report_lines(p, ds, passed)[6 + k];
                &&& (crate::text::has_prefix(line, "  ✅"@) <==> ds[k].passed)
                &&& (crate::text::has_prefix(line, "  ❌"@) <==> !ds[k].passed)
                &&& crate::text::has_prefix(line.skip(3), " ["@ + ds[k].case_name + "]"@)
            },
{
    reveal_strlit("  ✅");
    reveal_strlit("  ❌");
    reveal_strlit("✅");
    reveal_strlit("❌");
    reveal_strlit("  ");
    reveal_strlit(" [");
    reveal_strlit("]: ");
    reveal_strlit("]");
    let lines = report_lines(p, ds, passed);
    assert forall|k: int| 0 <= k < ds.len() implies {
        let line = #[trigger] report_lines(p, ds, passed)[6 + k];
        &&& (crate::text::has_prefix(line, "  ✅"@) <==> ds[k].passed)
        &&& (crate::text::has_prefix(line, "  ❌"@) <==> !ds[k].passed)
        &&& crate::text::has_prefix(line.skip(3), " ["@ + ds[k].case_name + "]"@)
    } by {
        let line = lines[6 + k];
        assert(line == deny_line(ds[k]));
        let m = mark(ds[k].passed);
        assert("  ✅"@ =~= "  "@ + "✅"@);
        assert("  ❌"@ =~= "  "@ + "❌"@);
        assert("✅"@[0] != "❌"@[0]);
        assert(line.len() >= 3);
        assert(line.subrange(0, 3) =~= "  "@ + m);
        if ds[k].passed {
            assert(crate::text::has_prefix(line, "  ✅"@));
            assert(line.subrange(0, 3)[2] != "  ❌"@[2]);
        } else {
            assert(crate::text::has_prefix(line, "  ❌"@));
            assert(line.subrange(0, 3)[2] != "  ✅"@[2]);
        }
        let tag = " ["@ + ds[k].case_name + "]"@;
        assert(line.skip(3).subrange(0, tag.len() as int) =~= tag);
    }
}

} // verus!
