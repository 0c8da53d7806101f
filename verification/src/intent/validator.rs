//! Intent validation: its results, and the structural checks of a
//! proposal (rollback plan, safety checks, code changes) that need no
//! measurement.

use vstd::prelude::*;
use crate::intent::proposal::RegenerationProposal;
use crate::intent::types::{spec_tier_name, tier_rank, ChangeType, SubstrateTier};

verus! {

/// Severity of a validation issue.
#[derive(Clone, Copy, Debug, PartialEq, Eq, Structural)]
pub enum IssueSeverity {
    /// Blocks the intent.
    Error,
    /// Reported but does not block.
    Warning,
}

/// Display name of a severity.
pub open spec fn spec_severity_name(s: IssueSeverity) -> Seq<char> {
    match s {
        IssueSeverity::Error => "ERROR"@,
        IssueSeverity::Warning => "WARNING"@,
    }
}

impl IssueSeverity {
    /// Renders the severity (`ERROR` or `WARNING`).
    pub fn to_string(&self) -> (s: String)
        ensures
            s@ == spec_severity_name(*self),
    {
        match self {
            IssueSeverity::Error => String::from_str("ERROR"),
            IssueSeverity::Warning => String::from_str("WARNING"),
        }
    }
}

/// One issue found while validating an intent.
#[derive(Clone, Debug)]
pub struct ValidationIssue {
    pub code: String,
    pub description: String,
    pub severity: IssueSeverity,
}

impl ValidationIssue {
    /// Renders the issue as `[<severity>] <code>: <description>`.
    pub fn to_string(&self) -> (s: String)
        ensures
            s@ == "["@ + spec_severity_name(self.severity) + "] "@ + self.code@ + ": "@ + self.description@,
    {
        let mut s = String::from_str("[");
        s.append(self.severity.to_string().as_str());
        s.append("] ");
        s.append(self.code.as_str());
        s.append(": ");
        s.append(self.description.as_str());
        s
    }
}

/// Outcome of validating an intent.
#[derive(Clone, Debug)]
pub enum IntentValidationResult {
    /// No issue at all.
    Valid,
    /// At least one issue.
    Invalid { issues: Vec<ValidationIssue> },
}

/// Whether any issue is an error.
pub open spec fn has_error(issues: Seq<ValidationIssue>) -> bool {
    exists|i: int| 0 <= i < issues.len() && (#[trigger] issues[i]).severity == IssueSeverity::Error
}

/// The issues of a result (none for `Valid`).
pub open spec fn spec_issues(r: IntentValidationResult) -> Seq<ValidationIssue> {
    match r {
        IntentValidationResult::Valid => Seq::empty(),
        IntentValidationResult::Invalid { issues } => issues@,
    }
}

impl IntentValidationResult {
    /// Whether the intent may proceed: no issue is an error (warnings alone
    /// leave it valid).
    pub fn is_valid(&self) -> (b: bool)
        ensures
            b == !has_error(spec_issues(*self)),
    {
        match self {
            IntentValidationResult::Valid => true,
            IntentValidationResult::Invalid { issues } => {
                assert(spec_issues(*self) == issues@);
                let mut i: usize = 0;
                while i < issues.len()
                    invariant
                        spec_issues(*self) == issues@,
                        i <= issues@.len(),
                        forall|j: int| 0 <= j < i ==> (#[trigger] issues@[j]).severity != IssueSeverity::Error,
                    decreases issues@.len() - i,
                {
                    if issues[i].severity == IssueSeverity::Error {
                        assert(issues@[i as int].severity == IssueSeverity::Error);
                        assert(has_error(issues@));
                        return false;
                    }
                    i = i + 1;
                }
                true
            },
        }
    }

    /// The issues found (empty for `Valid`).
    pub fn issues(&self) -> (v: &[ValidationIssue])
        ensures
            v@ == spec_issues(*self),
    {
        match self {
            IntentValidationResult::Valid => &[],
            IntentValidationResult::Invalid { issues } => issues.as_slice(),
        }
    }
}

/// Whether `r` is the result of the issues `v`: valid when there are none.
pub open spec fn spec_result_of(v: Seq<ValidationIssue>, r: IntentValidationResult) -> bool {
    if v.len() == 0 { r is Valid } else { r matches IntentValidationResult::Invalid { issues } && issues@ == v }
}

impl IntentValidationResult {
    /// The result of a list of issues: valid when it is empty.
    pub fn from_issues(issues: Vec<ValidationIssue>) -> (r: Self)
        ensures
            spec_result_of(issues@, r),
    {
        if issues.len() == 0 {
            IntentValidationResult::Valid
        } else {
            IntentValidationResult::Invalid { issues }
        }
    }
}

/// The issues the rollback and safety rules raise, in order: a missing
/// rollback plan when one is required, and missing safety checks for
/// changes of tier 2 and above; both are errors.
pub open spec fn spec_safeguard_issues(rollback_required: bool, tier: SubstrateTier, p: RegenerationProposal)
    -> Seq<(Seq<char>, Seq<char>)> {
    (if rollback_required && p.rollback_plan.steps@.len() == 0 {
        seq![("NO_ROLLBACK"@, "Proposal has no rollback plan"@)]
    } else {
        Seq::empty()
    }) + (if tier_rank(tier) >= 2 && p.safety_checks@.len() == 0 {
        seq![("MISSING_SAFETY_CHECKS"@, "Tier "@ + spec_tier_name(tier) + " changes require safety checks"@)]
    } else {
        Seq::empty()
    })
}

/// Codes and descriptions of a list of issues.
pub open spec fn issue_texts(v: Seq<ValidationIssue>) -> Seq<(Seq<char>, Seq<char>)> {
    v.map_values(|i: ValidationIssue| (i.code@, i.description@))
}

fn error_issue(code: &str, description: String) -> (i: ValidationIssue)
    ensures
        i.code@ == code@,
        i.description@ == description@,
        i.severity == IssueSeverity::Error,
{
    ValidationIssue { code: code.to_string(), description, severity: IssueSeverity::Error }
}

/// Appends to `issues` what the rollback and safety rules raise for a
/// proposal of governance tier `tier`.
pub fn check_safeguards(issues: &mut Vec<ValidationIssue>, rollback_required: bool, tier: SubstrateTier,
    proposal: &RegenerationProposal)
    ensures
        issue_texts(final(issues)@) == issue_texts(old(issues)@) + spec_safeguard_issues(rollback_required, tier, *proposal),
        forall|k: int| old(issues)@.len() <= k < final(issues)@.len() ==> (#[trigger] final(issues)@[k]).severity
            == IssueSeverity::Error,
        final(issues)@.subrange(0, old(issues)@.len() as int) == old(issues)@,
{
    let ghost start = issues@;
    if rollback_required && !proposal.has_rollback() {
        issues.push(error_issue("NO_ROLLBACK", String::from_str("Proposal has no rollback plan")));
    }
    let ghost mid = issues@;
    if tier.rank() >= 2 && !proposal.has_safety_checks() {
        let mut d = String::from_str("Tier ");
        d.append(tier.to_string().as_str());
        d.append(" changes require safety checks");
        issues.push(error_issue("MISSING_SAFETY_CHECKS", d));
    }
    proof {
        assert(issue_texts(issues@) =~= issue_texts(start) + spec_safeguard_issues(rollback_required, tier, *proposal));
        assert(issues@.subrange(0, start.len() as int) =~= start);
    }
}

/// Whether a proposal of a change lacks code changes though it is not a
/// configuration change.
pub open spec fn spec_lacks_code_changes(c: ChangeType, p: RegenerationProposal) -> bool {
    p.code_changes@.len() == 0 && !(c is ConfigurationChange)
}

/// Appends to `issues` the warning for a proposal without code changes
/// for a change other than a configuration change.
pub fn check_code_changes(issues: &mut Vec<ValidationIssue>, change_type: &ChangeType, proposal: &RegenerationProposal)
    ensures
        spec_lacks_code_changes(*change_type, *proposal) ==> issue_texts(final(issues)@) == issue_texts(old(issues)@).push(
            ("NO_CODE_CHANGES"@, "Non-config proposal has no code changes"@))
            && final(issues)@.last().severity == IssueSeverity::Warning,
        !spec_lacks_code_changes(*change_type, *proposal) ==> final(issues)@ == old(issues)@,
        final(issues)@.subrange(0, old(issues)@.len() as int) == old(issues)@,
{
    let ghost start = issues@;
    let config = match change_type {
        ChangeType::ConfigurationChange { .. } => true,
        _ => false,
    };
    if proposal.code_changes.len() == 0 && !config {
        issues.push(ValidationIssue {
            code: String::from_str("NO_CODE_CHANGES"),
            description: String::from_str("Non-config proposal has no code changes"),
            severity: IssueSeverity::Warning,
        });
        proof {
            assert(issue_texts(issues@) =~= issue_texts(start).push(
                ("NO_CODE_CHANGES"@, "Non-config proposal has no code changes"@)));
        }
    }
    proof {
        assert(issues@.subrange(0, start.len() as int) =~= start);
    }
}

/// Whether some issue in a list of (code, description) pairs has `code`.
pub open spec fn has_issue_code(v: Seq<(Seq<char>, Seq<char>)>, code: Seq<char>) -> bool {
    exists|k: int| 0 <= k < v.len() && (#[trigger] v[k]).0 == code
}

/// The safety-check rule: a proposal of tier 2 or tier 3 without safety
/// checks always gets a `MISSING_SAFETY_CHECKS` issue, and no other
/// proposal does, whatever the rollback requirement; the issue is the last
/// one raised and names the tier; and a proposal flagged at some tier is
/// flagged at every higher tier too.
pub proof fn law_high_tiers_need_safety_checks(
    rollback_required: bool,
    tier: SubstrateTier,
    higher: SubstrateTier,
    p: RegenerationProposal,
)
    ensures
        has_issue_code(spec_safeguard_issues(rollback_required, tier, p), "MISSING_SAFETY_CHECKS"@)
            <==> ((tier == SubstrateTier::Tier2 || tier == SubstrateTier::Tier3) && p.safety_checks@.len() == 0),
        tier_rank(tier) <= tier_rank(higher)
            && has_issue_code(spec_safeguard_issues(rollback_required, tier, p), "MISSING_SAFETY_CHECKS"@)
            ==> has_issue_code(spec_safeguard_issues(rollback_required, higher, p), "MISSING_SAFETY_CHECKS"@),
        (tier == SubstrateTier::Tier2 || tier == SubstrateTier::Tier3) && p.safety_checks@.len() == 0
            ==> spec_safeguard_issues(rollback_required, tier, p).last()
                == ("MISSING_SAFETY_CHECKS"@, "Tier "@ + spec_tier_name(tier) + " changes require safety checks"@),
{
    lemma_safety_code(rollback_required, tier, p);
    lemma_safety_code(rollback_required, higher, p);
}

proof fn lemma_safety_code(rollback_required: bool, tier: SubstrateTier, p: RegenerationProposal)
    ensures
        has_issue_code(spec_safeguard_issues(rollback_required, tier, p), "MISSING_SAFETY_CHECKS"@)
            <==> ((tier == SubstrateTier::Tier2 || tier == SubstrateTier::Tier3) && p.safety_checks@.len() == 0),
{
    reveal_strlit("NO_ROLLBACK");
    reveal_strlit("MISSING_SAFETY_CHECKS");
    let code = "MISSING_SAFETY_CHECKS"@;
    let v = spec_safeguard_issues(rollback_required, tier, p);
    let a: Seq<(Seq<char>, Seq<char>)> = if rollback_required && p.rollback_plan.steps@.len() == 0 {
        seq![("NO_ROLLBACK"@, "Proposal has no rollback plan"@)]
    } else {
        Seq::empty()
    };
    assert("NO_ROLLBACK"@.len() != code.len());
    if (tier == SubstrateTier::Tier2 || tier == SubstrateTier::Tier3) && p.safety_checks@.len() == 0 {
        assert(v[a.len() as int].0 == code);
    } else {
        assert(v =~= a);
        if has_issue_code(v, code) {
            let k = choose|k: int| 0 <= k < v.len() && (#[trigger] v[k]).0 == code;
            assert(v[k].0 == "NO_ROLLBACK"@);
        }
    }
}

} // verus!
