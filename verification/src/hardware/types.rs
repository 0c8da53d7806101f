//! Core types of hardware generation: identifiers, FPGA targets, HDL
//! formats, clock domains, resource estimates, simulation results,
//! configuration and summary statistics. Frequencies are held in whole
//! kilohertz.

use vstd::prelude::*;
use crate::platform::fresh_uuid;
use crate::text::decimal;
use crate::text::decimal_string;

verus! {

/// Identifier of an EPU design.
#[derive(Clone, Debug, PartialEq, Eq, Hash)]
pub struct EpuId(pub String);

impl EpuId {
    /// A fresh random identifier.
    pub fn new() -> (id: Self)
        ensures
            id.0@.len() == 36,
    {
        EpuId(fresh_uuid())
    }

    /// The identifier that is the design's name.
    pub fn from_name(name: &str) -> (id: Self)
        ensures
            id.0@ == name@,
    {
        EpuId(name.to_string())
    }

    /// Renders the identifier as `epu:<id>`.
    pub fn to_string(&self) -> (s: String)
        ensures
            s@ == "epu:"@ + self.0@,
    {
        let mut s = String::from_str("epu:");
        s.append(self.0.as_str());
        s
    }

    /// A copy of this identifier.
    pub fn duplicate(&self) -> (r: Self)
        ensures
            r == *self,
    {
        EpuId(self.0.clone())
    }
}

impl Default for EpuId {
    fn default() -> (id: Self)
        ensures
            id.0@.len() == 36,
    {
        Self::new()
    }
}

/// Identifier of a bitstream.
#[derive(Clone, Debug, PartialEq, Eq, Hash)]
pub struct BitstreamId(pub String);

impl BitstreamId {
    /// A fresh random identifier.
    pub fn new() -> (id: Self)
        ensures
            id.0@.len() == 36,
    {
        BitstreamId(fresh_uuid())
    }

    /// Renders the identifier as `bitstream:<id>`.
    pub fn to_string(&self) -> (s: String)
        ensures
            s@ == "bitstream:"@ + self.0@,
    {
        let mut s = String::from_str("bitstream:");
        s.append(self.0.as_str());
        s
    }
}

impl Default for BitstreamId {
    fn default() -> (id: Self)
        ensures
            id.0@.len() == 36,
    {
        Self::new()
    }
}

/// Target FPGA device family.
#[derive(Clone, Copy, Debug, PartialEq, Eq, Hash, Structural)]
pub enum FpgaTarget {
    Xilinx7Series,
    XilinxUltraScalePlus,
    IntelStratix,
    LatticeEcp5,
    SimulationOnly,
}

/// Display form of a target.
pub open spec fn spec_fpga_target_text(t: FpgaTarget) -> Seq<char> {
    match t {
        FpgaTarget::Xilinx7Series => "xilinx-7series"@,
        FpgaTarget::XilinxUltraScalePlus => "xilinx-ultrascale+"@,
        FpgaTarget::IntelStratix => "intel-stratix"@,
        FpgaTarget::LatticeEcp5 => "lattice-ecp5"@,
        FpgaTarget::SimulationOnly => "simulation-only"@,
    }
}

impl FpgaTarget {
    /// Renders the target (`xilinx-7series`, `simulation-only`, ...).
    pub fn to_string(&self) -> (s: String)
        ensures
            s@ == spec_fpga_target_text(*self),
    {
        match self {
            FpgaTarget::Xilinx7Series => String::from_str("xilinx-7series"),
            FpgaTarget::XilinxUltraScalePlus => String::from_str("xilinx-ultrascale+"),
            FpgaTarget::IntelStratix => String::from_str("intel-stratix"),
            FpgaTarget::LatticeEcp5 => String::from_str("lattice-ecp5"),
            FpgaTarget::SimulationOnly => String::from_str("simulation-only"),
        }
    }
}

/// Hardware description language.
#[derive(Clone, Copy, Debug, PartialEq, Eq, Hash, Structural)]
pub enum HdlFormat {
    Verilog,
    SystemVerilog,
    Chisel,
    Vhdl,
}

/// Display form of a format.
pub open spec fn spec_hdl_format_text(f: HdlFormat) -> Seq<char> {
    match f {
        HdlFormat::Verilog => "verilog"@,
        HdlFormat::SystemVerilog => "systemverilog"@,
        HdlFormat::Chisel => "chisel"@,
        HdlFormat::Vhdl => "vhdl"@,
    }
}

impl HdlFormat {
    /// Renders the format (`verilog`, `systemverilog`, `chisel`, `vhdl`).
    pub fn to_string(&self) -> (s: String)
        ensures
            s@ == spec_hdl_format_text(*self),
    {
        match self {
            HdlFormat::Verilog => String::from_str("verilog"),
            HdlFormat::SystemVerilog => String::from_str("systemverilog"),
            HdlFormat::Chisel => String::from_str("chisel"),
            HdlFormat::Vhdl => String::from_str("vhdl"),
        }
    }
}

/// A clock domain; its frequency in kilohertz.
#[derive(Clone, Debug)]
pub struct ClockDomain {
    pub name: String,
    pub frequency_khz: u64,
    pub is_primary: bool,
}

/// Estimated FPGA resources.
#[derive(Clone, Copy, Debug, PartialEq, Eq, Structural)]
pub struct ResourceUtilization {
    /// Lookup tables.
    pub luts: u64,
    /// Flip-flops.
    pub flip_flops: u64,
    /// Block RAM in kilobits.
    pub bram_kb: u64,
    /// DSP slices.
    pub dsp_slices: u64,
    /// Power in milliwatts.
    pub power_mw: u64,
}

/// Display form of a resource estimate.
pub open spec fn spec_resources_text(r: ResourceUtilization) -> Seq<char> {
    "Resources(LUTs="@ + decimal(r.luts as nat) + ", FFs="@ + decimal(r.flip_flops as nat)
        + ", BRAM="@ + decimal(r.bram_kb as nat) + "kb, DSPs="@ + decimal(r.dsp_slices as nat)
        + ", power="@ + decimal(r.power_mw as nat) + "mW)"@
}

impl ResourceUtilization {
    /// Renders the estimate as
    /// `Resources(LUTs=.., FFs=.., BRAM=..kb, DSPs=.., power=..mW)`.
    pub fn to_string(&self) -> (s: String)
        ensures
            s@ == spec_resources_text(*self),
    {
        let mut s = String::from_str("Resources(LUTs=");
        s.append(decimal_string(self.luts).as_str());
        s.append(", FFs=");
        s.append(decimal_string(self.flip_flops).as_str());
        s.append(", BRAM=");
        s.append(decimal_string(self.bram_kb).as_str());
        s.append("kb, DSPs=");
        s.append(decimal_string(self.dsp_slices).as_str());
        s.append(", power=");
        s.append(decimal_string(self.power_mw).as_str());
        s.append("mW)");
        s
    }
}

impl Default for ResourceUtilization {
    fn default() -> (r: Self)
        ensures
            r == (ResourceUtilization { luts: 0, flip_flops: 0, bram_kb: 0, dsp_slices: 0, power_mw: 0 }),
    {
        ResourceUtilization { luts: 0, flip_flops: 0, bram_kb: 0, dsp_slices: 0, power_mw: 0 }
    }
}

/// Result of a hardware simulation run; the highest frequency in kilohertz.
#[derive(Clone, Debug)]
pub struct SimulationResult {
    pub passed: bool,
    pub cycles_simulated: u64,
    pub test_cases_passed: u32,
    pub test_cases_failed: u32,
    pub timing_met: bool,
    pub max_frequency_khz: u64,
    pub warnings: Vec<String>,
}

/// Configuration of hardware generation; the clock target in kilohertz.
#[derive(Clone, Debug)]
pub struct HardwareConfig {
    pub target: FpgaTarget,
    pub hdl_format: HdlFormat,
    pub target_clock_khz: u64,
    pub simulate_before_synthesis: bool,
    pub enforce_governance: bool,
    pub max_tracked_records: usize,
}

impl Default for HardwareConfig {
    fn default() -> (c: Self)
        ensures
            c.target == FpgaTarget::SimulationOnly,
            c.hdl_format == HdlFormat::SystemVerilog,
            c.target_clock_khz == 100_000,
            c.simulate_before_synthesis,
            c.enforce_governance,
            c.max_tracked_records == 256,
    {
        HardwareConfig {
            target: FpgaTarget::SimulationOnly,
            hdl_format: HdlFormat::SystemVerilog,
            target_clock_khz: 100_000,
            simulate_before_synthesis: true,
            enforce_governance: true,
            max_tracked_records: 256,
        }
    }
}

/// Summary of hardware generation activity.
#[derive(Clone, Debug)]
pub struct HardwareSummary {
    pub total_generations: usize,
    pub successful_generations: usize,
    pub failed_generations: usize,
    pub total_simulations_run: usize,
    pub total_bitstreams_produced: usize,
}

impl Default for HardwareSummary {
    fn default() -> (s: Self)
        ensures
            s.total_generations == 0 && s.successful_generations == 0 && s.failed_generations == 0
                && s.total_simulations_run == 0 && s.total_bitstreams_produced == 0,
    {
        HardwareSummary {
            total_generations: 0,
            successful_generations: 0,
            failed_generations: 0,
            total_simulations_run: 0,
            total_bitstreams_produced: 0,
        }
    }
}

impl HardwareSummary {
    /// Renders the summary as
    /// `Hardware(generations=.., success=.., failed=.., simulations=.., bitstreams=..)`.
    pub fn to_string(&self) -> (s: String)
        ensures
            s@ == "Hardware(generations="@ + decimal(self.total_generations as nat)
                + ", success="@ + decimal(self.successful_generations as nat)
                + ", failed="@ + decimal(self.failed_generations as nat)
                + ", simulations="@ + decimal(self.total_simulations_run as nat)
                + ", bitstreams="@ + decimal(self.total_bitstreams_produced as nat) + ")"@,
    {
        let mut s = String::from_str("Hardware(generations=");
        s.append(decimal_string(self.total_generations as u64).as_str());
        s.append(", success=");
        s.append(decimal_string(self.successful_generations as u64).as_str());
        s.append(", failed=");
        s.append(decimal_string(self.failed_generations as u64).as_str());
        s.append(", simulations=");
        s.append(decimal_string(self.total_simulations_run as u64).as_str());
        s.append(", bitstreams=");
        s.append(decimal_string(self.total_bitstreams_produced as u64).as_str());
        s.append(")");
        s
    }
}

} // verus!
