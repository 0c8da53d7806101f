//! Execution receipts: tamper-evident proof that a consequence executed,
//! sealed by a SHA-256 hash over a canonical JSON payload.

use vstd::prelude::*;
use sha2::Digest;
use crate::commitment::types::SelfCommitmentId;
use crate::consequence::types::SelfConsequenceId;
use crate::intent::types::{IntentId, SubstrateTier};
use crate::platform::{fresh_uuid, now_nanos};

verus! {

/// Name for what `serde_json` prints for the receipt payload object: a
/// JSON object that maps each of the seven keys to the value given with it.
pub uninterp spec fn spec_receipt_payload(
    consequence_key: Seq<char>,
    consequence_id: Seq<char>,
    commitment_key: Seq<char>,
    commitment_id: Seq<char>,
    intent_key: Seq<char>,
    intent_id: Seq<char>,
    issued_key: Seq<char>,
    issued_at: Seq<char>,
    summary_key: Seq<char>,
    summary: Seq<char>,
    tests_key: Seq<char>,
    tests_passed: nat,
    tier_key: Seq<char>,
    governance_tier: Seq<char>,
) -> Seq<char>;

/// Name for the lower-case hexadecimal SHA-256 digest of a string's UTF-8 bytes.
pub uninterp spec fn spec_sha256_hex(data: Seq<char>) -> Seq<char>;

/// Name for the RFC 3339 rendering of a UTC instant given in nanoseconds
/// since the Unix epoch.
pub uninterp spec fn spec_rfc3339(nanos: i64) -> Seq<char>;

/// Builds a `serde_json::Map` that maps each key to the value given with
/// it (six strings and one number) and prints the object with
/// `serde_json::Value::to_string`. The result is a function of the
/// arguments alone, named `spec_receipt_payload`.
#[verifier::external_body]
fn receipt_payload(
    consequence_key: &str,
    consequence_id: &str,
    commitment_key: &str,
    commitment_id: &str,
    intent_key: &str,
    intent_id: &str,
    issued_key: &str,
    issued_at: &str,
    summary_key: &str,
    summary: &str,
    tests_key: &str,
    tests_passed: u64,
    tier_key: &str,
    governance_tier: &str,
) -> (s: String)
    ensures
        s@ == spec_receipt_payload(consequence_key@, consequence_id@, commitment_key@, commitment_id@,
            intent_key@, intent_id@, issued_key@, issued_at@, summary_key@, summary@, tests_key@,
            tests_passed as nat, tier_key@, governance_tier@),
{
    let mut m = serde_json::Map::new();
    m.insert(consequence_key.into(), consequence_id.into());
    m.insert(commitment_key.into(), commitment_id.into());
    m.insert(intent_key.into(), intent_id.into());
    m.insert(issued_key.into(), issued_at.into());
    m.insert(summary_key.into(), summary.into());
    m.insert(tests_key.into(), tests_passed.into());
    m.insert(tier_key.into(), governance_tier.into());
    serde_json::Value::Object(m).to_string()
}

/// Hashes the UTF-8 bytes of `data` with `sha2::Sha256` and prints the
/// digest with `{:x}`. Named `spec_sha256_hex`.
#[verifier::external_body]
fn sha256_hex(data: &str) -> (s: String)
    ensures
        s@ == spec_sha256_hex(data@),
{
    let mut hasher = sha2::Sha256::new();
    hasher.update(data.as_bytes());
    format!("{:x}", hasher.finalize())
}

/// Converts nanoseconds since the epoch with
/// `chrono::DateTime::from_timestamp_nanos` (every `i64` is in range) and
/// prints the instant with `to_rfc3339`. Named `spec_rfc3339`.
#[verifier::external_body]
fn rfc3339(nanos: i64) -> (s: String)
    ensures
        s@ == spec_rfc3339(nanos),
{
    chrono::DateTime::from_timestamp_nanos(nanos).to_rfc3339()
}

/// The current time in nanoseconds since the Unix epoch, the largest
/// `i64` once the clock passes what an `i64` can count.
pub fn issue_time() -> (t: i64) {
    match now_nanos() {
        Some(t) => t,
        None => i64::MAX,
    }
}

/// The tier as `Debug` prints it (`Tier0` ...).
pub open spec fn spec_tier_debug(t: SubstrateTier) -> Seq<char> {
    match t {
        SubstrateTier::Tier0 => "Tier0"@,
        SubstrateTier::Tier1 => "Tier1"@,
        SubstrateTier::Tier2 => "Tier2"@,
        SubstrateTier::Tier3 => "Tier3"@,
    }
}

fn tier_debug(t: SubstrateTier) -> (s: &'static str)
    ensures
        s@ == spec_tier_debug(t),
{
    match t {
        SubstrateTier::Tier0 => "Tier0",
        SubstrateTier::Tier1 => "Tier1",
        SubstrateTier::Tier2 => "Tier2",
        SubstrateTier::Tier3 => "Tier3",
    }
}

/// Proof that a consequence executed.
#[derive(Clone, Debug)]
pub struct ExecutionReceipt {
    /// Identifier of the receipt (`receipt-<uuid>`).
    pub receipt_id: String,
    /// The consequence it covers.
    pub consequence_id: SelfConsequenceId,
    /// The commitment that authorized the execution.
    pub commitment_id: SelfCommitmentId,
    /// The intent behind the commitment.
    pub intent_id: IntentId,
    /// Hash sealing the other fields.
    pub execution_hash: String,
    /// When the receipt was issued, in nanoseconds since the Unix epoch.
    pub issued_at: i64,
    /// What was executed.
    pub summary: String,
    /// Number of tests that passed.
    pub tests_passed: usize,
    /// Governance tier of the change.
    pub governance_tier: SubstrateTier,
}

/// The hash that seals a receipt: SHA-256 of the JSON payload that maps
/// `consequence_id`, `commitment_id`, `intent_id`, `issued_at` (RFC 3339),
/// `summary`, `tests_passed` and `governance_tier` to the receipt's values.
pub open spec fn spec_compute_hash(r: ExecutionReceipt) -> Seq<char> {
    spec_sha256_hex(spec_receipt_payload(
        "consequence_id"@,
        r.consequence_id.0@,
        "commitment_id"@,
        r.commitment_id.0@,
        "intent_id"@,
        "intent:"@ + r.intent_id.0@,
        "issued_at"@,
        spec_rfc3339(r.issued_at),
        "summary"@,
        r.summary@,
        "tests_passed"@,
        r.tests_passed as nat,
        "governance_tier"@,
        spec_tier_debug(r.governance_tier),
    ))
}

impl ExecutionReceipt {
    /// Issues a receipt at time `now` (nanoseconds since the Unix epoch)
    /// with the given identifier; its hash seals its contents.
    pub fn new_at(
        receipt_id: String,
        consequence_id: SelfConsequenceId,
        commitment_id: SelfCommitmentId,
        intent_id: IntentId,
        governance_tier: SubstrateTier,
        tests_passed: usize,
        summary: String,
        now: i64,
    ) -> (r: Self)
        ensures
            r.receipt_id == receipt_id,
            r.consequence_id == consequence_id,
            r.commitment_id == commitment_id,
            r.intent_id == intent_id,
            r.governance_tier == governance_tier,
            r.tests_passed == tests_passed,
            r.summary == summary,
            r.issued_at == now,
            r.execution_hash@ == spec_compute_hash(r),
    {
        let mut r = ExecutionReceipt {
            receipt_id,
            consequence_id,
            commitment_id,
            intent_id,
            execution_hash: String::new(),
            issued_at: now,
            summary,
            tests_passed,
            governance_tier,
        };
        r.execution_hash = r.compute_hash();
        r
    }

    /// Issues a receipt now, under a fresh identifier `receipt-<uuid>`.
    pub fn new(
        consequence_id: SelfConsequenceId,
        commitment_id: SelfCommitmentId,
        intent_id: IntentId,
        governance_tier: SubstrateTier,
        tests_passed: usize,
        summary: String,
    ) -> (r: Self)
        ensures
            r.receipt_id@ == "receipt-"@ + r.receipt_id@.subrange(8, r.receipt_id@.len() as int),
            r.receipt_id@.len() == 44,
            r.consequence_id == consequence_id,
            r.commitment_id == commitment_id,
            r.intent_id == intent_id,
            r.governance_tier == governance_tier,
            r.tests_passed == tests_passed,
            r.summary == summary,
            r.execution_hash@ == spec_compute_hash(r),
    {
        let mut receipt_id = String::from_str("receipt-");
        receipt_id.append(fresh_uuid().as_str());
        proof {
            reveal_strlit("receipt-");
            assert(receipt_id@.subrange(0, 8) =~= "receipt-"@);
            assert(receipt_id@ =~= "receipt-"@ + receipt_id@.subrange(8, receipt_id@.len() as int));
        }
        Self::new_at(receipt_id, consequence_id, commitment_id, intent_id, governance_tier, tests_passed, summary, issue_time())
    }

    /// Recomputes the sealing hash from the receipt's contents.
    pub fn compute_hash(&self) -> (h: String)
        ensures
            h@ == spec_compute_hash(*self),
    {
        let issued = rfc3339(self.issued_at);
        let payload = receipt_payload(
            "consequence_id",
            self.consequence_id.0.as_str(),
            "commitment_id",
            self.commitment_id.0.as_str(),
            "intent_id",
            self.intent_id.to_string().as_str(),
            "issued_at",
            issued.as_str(),
            "summary",
            self.summary.as_str(),
            "tests_passed",
            self.tests_passed as u64,
            "governance_tier",
            tier_debug(self.governance_tier),
        );
        sha256_hex(payload.as_str())
    }

    /// Whether the stored hash still matches the contents.
    pub fn verify(&self) -> (b: bool)
        ensures
            b == (self.execution_hash@ == spec_compute_hash(*self)),
    {
        self.execution_hash == self.compute_hash()
    }
}

} // verus!
