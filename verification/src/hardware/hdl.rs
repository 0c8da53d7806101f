//! HDL generation: turns an EPU specification into Verilog,
//! SystemVerilog, Chisel or VHDL source.

use vstd::prelude::*;
use crate::hardware::epu::{spec_component_kind_text, EpuComponent, EpuSpec};
use crate::hardware::error::HardwareResult;
use crate::hardware::types::{spec_hdl_format_text, HdlFormat};
use crate::text::{count_char, decimal, decimal_string, hex16_string, hex_fixed};
use vstd::string::StringSliceAdditionalSpecFns;

verus! {

/// Generated HDL source.
#[derive(Clone, Debug)]
pub struct GeneratedHdl {
    pub format: HdlFormat,
    pub module_name: String,
    pub source: String,
    pub line_count: usize,
    pub content_hash: String,
}

/// The rolling hash of a byte string: starting from zero, each byte
/// multiplies the hash by 31 and adds itself, wrapping at 2^64.
pub open spec fn spec_rolling_hash(bytes: Seq<u8>) -> u64
    decreases bytes.len(),
{
    if bytes.len() == 0 {
        0
    } else {
        vstd::wrapping::u64_specs::wrapping_add(
            vstd::wrapping::u64_specs::wrapping_mul(spec_rolling_hash(bytes.drop_last()), 31),
            bytes.last() as u64,
        )
    }
}

/// The number of lines of a text as `str::lines` counts them: one per
/// line feed, plus one for a last line without a line feed.
pub open spec fn spec_line_count(s: Seq<char>) -> nat {
    count_char(s, '\n') + if s.len() > 0 && s.last() != '\n' { 1nat } else { 0nat }
}

proof fn lemma_count_char_bound(s: Seq<char>, c: char)
    ensures
        count_char(s, c) <= s.len(),
    decreases s.len(),
{
    if s.len() > 0 {
        lemma_count_char_bound(s.drop_last(), c);
    }
}

/// Counts the lines of `s` as `str::lines` does.
pub fn line_count(s: &str) -> (n: usize)
    ensures
        n == spec_line_count(s@),
{
    let len = s.unicode_len();
    let mut n: usize = 0;
    let mut i: usize = 0;
    while i < len
        invariant
            len == s@.len(),
            i <= len,
            n == count_char(s@.take(i as int), '\n'),
        decreases len - i,
    {
        proof {
            assert(s@.take(i as int + 1).drop_last() =~= s@.take(i as int));
            lemma_count_char_bound(s@.take(i as int), '\n');
        }
        if s.get_char(i) == '\n' {
            n = n + 1;
        }
        i = i + 1;
    }
    proof {
        assert(s@.take(len as int) =~= s@);
        lemma_count_char_bound(s@, '\n');
    }
    if len > 0 && s.get_char(len - 1) != '\n' {
        proof {
            lemma_count_char_bound(s@.drop_last(), '\n');
        }
        n + 1
    } else {
        n
    }
}

impl GeneratedHdl {
    /// The content hash of a source: its rolling hash over the UTF-8
    /// bytes, as sixteen hexadecimal digits.
    pub fn compute_hash(source: &str) -> (h: String)
        ensures
            h@ == hex_fixed(spec_rolling_hash(source.spec_bytes()) as nat, 16),
    {
        let bytes = source.as_bytes();
        let mut acc: u64 = 0;
        let mut i: usize = 0;
        while i < bytes.len()
            invariant
                i <= bytes@.len(),
                bytes@ == source.spec_bytes(),
                acc == spec_rolling_hash(bytes@.take(i as int)),
            decreases bytes@.len() - i,
        {
            proof {
                assert(bytes@.take(i as int + 1).drop_last() =~= bytes@.take(i as int));
            }
            acc = acc.wrapping_mul(31).wrapping_add(bytes[i] as u64);
            i = i + 1;
        }
        proof {
            assert(bytes@.take(bytes@.len() as int) =~= bytes@);
        }
        hex16_string(acc)
    }

    /// Renders the HDL as `HDL(<format>, module=<name>, <n> lines)`.
    pub fn to_string(&self) -> (s: String)
        ensures
            s@ == "HDL("@ + spec_hdl_format_text(self.format) + ", module="@ + self.module_name@ + ", "@
                + decimal(self.line_count as nat) + " lines)"@,
    {
        let mut s = String::from_str("HDL(");
        s.append(self.format.to_string().as_str());
        s.append(", module=");
        s.append(self.module_name.as_str());
        s.append(", ");
        s.append(decimal_string(self.line_count as u64).as_str());
        s.append(" lines)");
        s
    }
}

/// The port width of a component in bits (eight per port).
pub open spec fn port_bits(c: EpuComponent) -> nat {
    (c.port_count * 8) as nat
}

/// The lines a component contributes to the source in the given format
/// (none in VHDL).
pub open spec fn spec_component_text(c: EpuComponent, f: HdlFormat) -> Seq<char> {
    match f {
        HdlFormat::Verilog => "  // "@ + c.name@ + " ("@ + spec_component_kind_text(c.kind) + ")\n"@
            + "  input wire ["@ + decimal(port_bits(c)) + "-1:0] "@ + c.name@ + "_in,\n"@
            + "  output wire ["@ + decimal(port_bits(c)) + "-1:0] "@ + c.name@ + "_out,\n"@,
        HdlFormat::SystemVerilog => "  // "@ + c.name@ + " ("@ + spec_component_kind_text(c.kind) + ")\n"@
            + "  input logic ["@ + decimal(port_bits(c)) + "-1:0] "@ + c.name@ + "_in,\n"@
            + "  output logic ["@ + decimal(port_bits(c)) + "-1:0] "@ + c.name@ + "_out,\n"@,
        HdlFormat::Chisel => "    val "@ + c.name@ + "_in = Input(UInt("@ + decimal(port_bits(c)) + ".W))\n"@
            + "    val "@ + c.name@ + "_out = Output(UInt("@ + decimal(port_bits(c)) + ".W))\n"@,
        HdlFormat::Vhdl => Seq::empty(),
    }
}

/// The lines of all components, in order.
pub open spec fn spec_components_text(cs: Seq<EpuComponent>, f: HdlFormat) -> Seq<char>
    decreases cs.len(),
{
    if cs.len() == 0 {
        Seq::empty()
    } else {
        spec_components_text(cs.drop_last(), f) + spec_component_text(cs.last(), f)
    }
}

/// The text before the components.
pub open spec fn spec_hdl_header(s: EpuSpec, f: HdlFormat) -> Seq<char> {
    match f {
        HdlFormat::Verilog => "// EPU: "@ + s.name@ + " v"@ + s.version@ + "\n"@ + "module "@ + s.name@ + " (\n"@
            + "  input wire clk,\n"@ + "  input wire rst_n,\n"@,
        HdlFormat::SystemVerilog => "// EPU: "@ + s.name@ + " v"@ + s.version@ + " (SystemVerilog)\n"@
            + "module "@ + s.name@ + " (\n"@ + "  input logic clk,\n"@ + "  input logic rst_n,\n"@,
        HdlFormat::Chisel => "import chisel3._\n"@ + "import chisel3.util._\n\n"@ + "// EPU: "@ + s.name@ + " v"@
            + s.version@ + "\n"@ + "class "@ + s.name@ + " extends Module {\n"@ + "  val io = IO(new Bundle {\n"@,
        HdlFormat::Vhdl => "-- EPU: "@ + s.name@ + " v"@ + s.version@ + "\n"@ + "library IEEE;\n"@
            + "use IEEE.STD_LOGIC_1164.ALL;\n\n"@ + "entity "@ + s.name@ + " is\n"@ + "  port (\n"@
            + "    clk   : in  std_logic;\n"@ + "    rst_n : in  std_logic;\n"@ + "    ready : out std_logic\n"@
            + "  );\n"@ + "end "@ + s.name@ + ";\n\n"@ + "architecture rtl of "@ + s.name@ + " is\n"@,
    }
}

/// The text after the components.
pub open spec fn spec_hdl_footer(f: HdlFormat) -> Seq<char> {
    match f {
        HdlFormat::Verilog => "  output wire ready\n"@ + ");\n\n"@ + "  assign ready = 1'b1;\n\n"@ + "endmodule\n"@,
        HdlFormat::SystemVerilog => "  output logic ready\n"@ + ");\n\n"@ + "  always_comb begin\n"@
            + "    ready = 1'b1;\n"@ + "  end\n\n"@ + "endmodule\n"@,
        HdlFormat::Chisel => "    val ready = Output(Bool())\n"@ + "  })\n\n"@ + "  io.ready := true.B\n"@ + "}\n"@,
        HdlFormat::Vhdl => "begin\n"@ + "  ready <= '1';\n"@ + "end rtl;\n"@,
    }
}

/// The source generated for a specification in a format.
pub open spec fn spec_hdl_source(s: EpuSpec, f: HdlFormat) -> Seq<char> {
    spec_hdl_header(s, f) + spec_components_text(s.components@, f) + spec_hdl_footer(f)
}

fn header_text(s: &EpuSpec, f: HdlFormat) -> (t: String)
    ensures
        t@ == spec_hdl_header(*s, f),
{
    let mut t = String::new();
    match f {
        HdlFormat::Verilog => {
            t.append("// EPU: "); t.append(s.name.as_str()); t.append(" v"); t.append(s.version.as_str());
            t.append("\n"); t.append("module "); t.append(s.name.as_str()); t.append(" (\n");
            t.append("  input wire clk,\n"); t.append("  input wire rst_n,\n");
        },
        HdlFormat::SystemVerilog => {
            t.append("// EPU: "); t.append(s.name.as_str()); t.append(" v"); t.append(s.version.as_str());
            t.append(" (SystemVerilog)\n"); t.append("module "); t.append(s.name.as_str()); t.append(" (\n");
            t.append("  input logic clk,\n"); t.append("  input logic rst_n,\n");
        },
        HdlFormat::Chisel => {
            t.append("import chisel3._\n"); t.append("import chisel3.util._\n\n"); t.append("// EPU: ");
            t.append(s.name.as_str()); t.append(" v"); t.append(s.version.as_str()); t.append("\n");
            t.append("class "); t.append(s.name.as_str()); t.append(" extends Module {\n");
            t.append("  val io = IO(new Bundle {\n");
        },
        HdlFormat::Vhdl => {
            t.append("-- EPU: "); t.append(s.name.as_str()); t.append(" v"); t.append(s.version.as_str());
            t.append("\n"); t.append("library IEEE;\n"); t.append("use IEEE.STD_LOGIC_1164.ALL;\n\n");
            t.append("entity "); t.append(s.name.as_str()); t.append(" is\n"); t.append("  port (\n");
            t.append("    clk   : in  std_logic;\n"); t.append("    rst_n : in  std_logic;\n");
            t.append("    ready : out std_logic\n"); t.append("  );\n"); t.append("end ");
            t.append(s.name.as_str()); t.append(";\n\n"); t.append("architecture rtl of ");
            t.append(s.name.as_str()); t.append(" is\n");
        },
    }
    proof {
        assert(t@ =~= spec_hdl_header(*s, f));
    }
    t
}

fn footer_text(f: HdlFormat) -> (t: String)
    ensures
        t@ == spec_hdl_footer(f),
{
    let mut t = String::new();
    match f {
        HdlFormat::Verilog => {
            t.append("  output wire ready\n"); t.append(");\n\n"); t.append("  assign ready = 1'b1;\n\n");
            t.append("endmodule\n");
        },
        HdlFormat::SystemVerilog => {
            t.append("  output logic ready\n"); t.append(");\n\n"); t.append("  always_comb begin\n");
            t.append("    ready = 1'b1;\n"); t.append("  end\n\n"); t.append("endmodule\n");
        },
        HdlFormat::Chisel => {
            t.append("    val ready = Output(Bool())\n"); t.append("  })\n\n"); t.append("  io.ready := true.B\n");
            t.append("}\n");
        },
        HdlFormat::Vhdl => {
            t.append("begin\n"); t.append("  ready <= '1';\n"); t.append("end rtl;\n");
        },
    }
    proof {
        assert(t@ =~= spec_hdl_footer(f));
    }
    t
}

fn component_text(c: &EpuComponent, f: HdlFormat) -> (t: String)
    ensures
        t@ == spec_component_text(*c, f),
{
    let bits = decimal_string(c.port_count as u64 * 8);
    let mut t = String::new();
    match f {
        HdlFormat::Verilog => {
            t.append("  // "); t.append(c.name.as_str()); t.append(" ("); t.append(c.kind.to_string().as_str());
            t.append(")\n"); t.append("  input wire ["); t.append(bits.as_str()); t.append("-1:0] ");
            t.append(c.name.as_str()); t.append("_in,\n"); t.append("  output wire ["); t.append(bits.as_str());
            t.append("-1:0] "); t.append(c.name.as_str()); t.append("_out,\n");
        },
        HdlFormat::SystemVerilog => {
            t.append("  // "); t.append(c.name.as_str()); t.append(" ("); t.append(c.kind.to_string().as_str());
            t.append(")\n"); t.append("  input logic ["); t.append(bits.as_str()); t.append("-1:0] ");
            t.append(c.name.as_str()); t.append("_in,\n"); t.append("  output logic ["); t.append(bits.as_str());
            t.append("-1:0] "); t.append(c.name.as_str()); t.append("_out,\n");
        },
        HdlFormat::Chisel => {
            t.append("    val "); t.append(c.name.as_str()); t.append("_in = Input(UInt("); t.append(bits.as_str());
            t.append(".W))\n"); t.append("    val "); t.append(c.name.as_str()); t.append("_out = Output(UInt(");
            t.append(bits.as_str()); t.append(".W))\n");
        },
        HdlFormat::Vhdl => {},
    }
    proof {
        assert(t@ =~= spec_component_text(*c, f));
    }
    t
}

/// The source generated for `spec` in format `f`.
pub fn hdl_source(spec: &EpuSpec, f: HdlFormat) -> (t: String)
    ensures
        t@ == spec_hdl_source(*spec, f),
{
    let mut t = header_text(spec, f);
    let ghost header = t@;
    let mut i: usize = 0;
    while i < spec.components.len()
        invariant
            i <= spec.components@.len(),
            t@ == header + spec_components_text(spec.components@.take(i as int), f),
        decreases spec.components@.len() - i,
    {
        proof {
            assert(spec.components@.take(i as int + 1).drop_last() =~= spec.components@.take(i as int));
        }
        let piece = component_text(&spec.components[i], f);
        t.append(piece.as_str());
        proof {
            assert(t@ =~= header + spec_components_text(spec.components@.take(i as int + 1), f));
        }
        i = i + 1;
    }
    proof {
        assert(spec.components@.take(spec.components@.len() as int) =~= spec.components@);
    }
    let footer = footer_text(f);
    t.append(footer.as_str());
    proof {
        assert(t@ =~= spec_hdl_source(*spec, f));
    }
    t
}

/// Generates HDL source from an EPU specification.
pub trait HdlGenerator {
    /// Generates the source of `spec` in `format`.
    fn generate(&self, spec: &EpuSpec, format: &HdlFormat) -> HardwareResult<GeneratedHdl>;

    /// Name of the generator.
    fn name(&self) -> &str;
}

/// Deterministic generator from fixed templates.
pub struct SimulatedHdlGenerator;

impl SimulatedHdlGenerator {
    /// The generator.
    pub fn new() -> Self {
        SimulatedHdlGenerator
    }
}

impl Default for SimulatedHdlGenerator {
    fn default() -> Self {
        SimulatedHdlGenerator
    }
}

impl HdlGenerator for SimulatedHdlGenerator {
    /// Fills the template of the format; never fails. The module takes the
    /// design's name; the line count and hash describe the source.
    fn generate(&self, spec: &EpuSpec, format: &HdlFormat) -> (r: HardwareResult<GeneratedHdl>)
        ensures
            r matches Ok(h) && {
                &&& h.format == *format
                &&& h.module_name@ == spec.name@
                &&& h.source@ == spec_hdl_source(*spec, *format)
                &&& h.line_count == spec_line_count(h.source@)
                &&& h.content_hash@ == hex_fixed(spec_rolling_hash(vstd::utf8::encode_utf8(h.source@)) as nat, 16)
            },
    {
        let source = hdl_source(spec, *format);
        let line_count = line_count(source.as_str());
        let content_hash = GeneratedHdl::compute_hash(source.as_str());
        Ok(GeneratedHdl { format: *format, module_name: spec.name.clone(), source, line_count, content_hash })
    }

    fn name(&self) -> (s: &str)
        ensures
            s@ == "simulated-hdl-generator"@,
    {
        "simulated-hdl-generator"
    }
}

} // verus!
