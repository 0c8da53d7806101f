//! The intermediate representation the compiler reads: modules of
//! functions of instructions, with what the optimization passes and code
//! generators look at.

use vstd::prelude::*;
use crate::platform::fresh_uuid;

verus! {

/// Direction of a commitment boundary crossing.
#[derive(Clone, Copy, Debug, PartialEq, Eq, Structural)]
pub enum BoundaryDirection {
    Enter,
    Exit,
}

/// An instruction, as far as the compiler looks into it. `Other` stands
/// for every instruction no pass distinguishes; `metadata` tells whether
/// it only carries metadata.
#[derive(Clone, Debug, PartialEq, Eq)]
pub enum WlirInstruction {
    Nop,
    SetSourceLocation,
    LoadConst,
    Add,
    Sub,
    Mul,
    Call,
    Return,
    Jump,
    CrossCommitmentBoundary { commitment_id: String, direction: BoundaryDirection },
    RecordProvenance,
    EmitEvent { event_type: String },
    InvokeOperator,
    MemoryQuery,
    MemoryStore,
    SafetyFence,
    AssertInvariant,
    Other { metadata: bool },
}

/// Whether an instruction only carries metadata.
pub open spec fn spec_is_metadata(i: WlirInstruction) -> bool {
    i is Nop || i is SetSourceLocation || (i matches WlirInstruction::Other { metadata } && metadata)
}

impl WlirInstruction {
    /// Whether the instruction only carries metadata.
    pub fn is_metadata(&self) -> (b: bool)
        ensures
            b == spec_is_metadata(*self),
    {
        match self {
            WlirInstruction::Nop => true,
            WlirInstruction::SetSourceLocation => true,
            WlirInstruction::Other { metadata } => *metadata,
            _ => false,
        }
    }
}

/// Verification status of a module.
#[derive(Clone, Copy, Debug, PartialEq, Eq, Structural)]
pub enum VerificationStatus {
    Unverified,
    PartiallyVerified,
    FullyVerified,
}

/// A function of a module.
#[derive(Clone, Debug)]
pub struct WlirFunction {
    pub name: String,
    pub instructions: Vec<WlirInstruction>,
}

/// A module of functions.
#[derive(Clone, Debug)]
pub struct WlirModule {
    pub id: String,
    pub name: String,
    pub version: String,
    pub functions: Vec<WlirFunction>,
    pub verification_status: VerificationStatus,
}

/// Total number of instructions over the functions.
pub open spec fn spec_total_instructions(fs: Seq<WlirFunction>) -> nat
    decreases fs.len(),
{
    if fs.len() == 0 { 0 } else { spec_total_instructions(fs.drop_last()) + fs.last().instructions@.len() }
}

impl WlirFunction {
    /// A function without instructions.
    pub fn new(name: &str) -> (f: Self)
        ensures
            f.name@ == name@,
            f.instructions@.len() == 0,
    {
        WlirFunction { name: name.to_string(), instructions: Vec::new() }
    }

    /// Appends an instruction.
    pub fn push_instruction(&mut self, i: WlirInstruction)
        ensures
            final(self).name == old(self).name,
            final(self).instructions@ == old(self).instructions@.push(i),
    {
        self.instructions.push(i);
    }
}

impl WlirModule {
    /// An unverified module without functions.
    pub fn new(name: &str, version: &str) -> (m: Self)
        ensures
            m.name@ == name@,
            m.version@ == version@,
            m.id@.len() == 36,
            m.functions@.len() == 0,
            m.verification_status == VerificationStatus::Unverified,
    {
        WlirModule {
            id: fresh_uuid(),
            name: name.to_string(),
            version: version.to_string(),
            functions: Vec::new(),
            verification_status: VerificationStatus::Unverified,
        }
    }

    /// Appends a function.
    pub fn add_function(&mut self, f: WlirFunction)
        ensures
            final(self).id == old(self).id,
            final(self).name == old(self).name,
            final(self).version == old(self).version,
            final(self).verification_status == old(self).verification_status,
            final(self).functions@ == old(self).functions@.push(f),
    {
        self.functions.push(f);
    }

    /// Total number of instructions.
    pub fn total_instructions(&self) -> (n: usize)
        requires
            spec_total_instructions(self.functions@) <= usize::MAX,
        ensures
            n == spec_total_instructions(self.functions@),
    {
        let mut n: usize = 0;
        let mut i: usize = 0;
        while i < self.functions.len()
            invariant
                i <= self.functions@.len(),
                spec_total_instructions(self.functions@) <= usize::MAX,
                n == spec_total_instructions(self.functions@.take(i as int)),
            decreases self.functions@.len() - i,
        {
            proof {
                assert(self.functions@.take(i as int + 1).drop_last() =~= self.functions@.take(i as int));
                lemma_total_prefix(self.functions@, i as int + 1);
            }
            n = n + self.functions[i].instructions.len();
            i = i + 1;
        }
        proof {
            assert(self.functions@.take(self.functions@.len() as int) =~= self.functions@);
        }
        n
    }
}

proof fn lemma_total_prefix(fs: Seq<WlirFunction>, i: int)
    requires
        0 <= i <= fs.len(),
    ensures
        spec_total_instructions(fs.take(i)) <= spec_total_instructions(fs),
    decreases fs.len() - i,
{
    if i < fs.len() {
        lemma_total_prefix(fs, i + 1);
        assert(fs.take(i + 1).drop_last() =~= fs.take(i));
    } else {
        assert(fs.take(i) =~= fs);
    }
}

} // verus!
