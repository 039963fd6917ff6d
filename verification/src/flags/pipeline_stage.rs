//! Pipeline stages (`VkPipelineStageFlags`).

use vstd::prelude::*;
use crate::flags::flag_set::{FlagBit, FlagSet, flag_bit, has_bit, lemma_low_bits};
use crate::text::str_equals;

verus! {
/// A stage of the pipeline.
/// The variants are listed in the order of their `VkPipelineStageFlagBits` bits: variant `i` is bit `1 << i`.
#[derive(Debug, Hash, PartialEq, Eq, Clone, Copy, Structural)]
pub enum PipelineStage {
    /// Before subsequent commands are processed
    TopOfPipe,
    /// Draw/DispatchIndirect command fetch
    DrawIndirect,
    /// Vertex/index fetch
    VertexInput,
    /// Vertex shading
    VertexShader,
    /// Tessellation control shading
    TessellationControlShader,
    /// Tessellation evaluation shading
    TessellationEvaluationShader,
    /// Geometry shading
    GeometryShader,
    /// Fragment shading
    FragmentShader,
    /// Early fragment (depth and stencil) tests
    EarlyFragmentTests,
    /// Late fragment (depth and stencil) tests
    LateFragmentTests,
    /// Color attachment writes
    ColorAttachmentOutput,
    /// Compute shading
    ComputerShader,
    /// Transfer/copy operations
    Transfer,
    /// After previous commands have completed
    BottomOfPipe,
    /// Indicates host (CPU) is a source/sink of the dependency
    Host,
    /// All stages of the graphics pipeline
    AllGraphics,
    /// All stages supported on the queue
    AllCommands,
}

impl FlagBit for PipelineStage {
    open spec fn spec_count() -> u32 {
        17
    }

    open spec fn spec_index(self) -> u32 {
        match self {
            PipelineStage::TopOfPipe => 0,
            PipelineStage::DrawIndirect => 1,
            PipelineStage::VertexInput => 2,
            PipelineStage::VertexShader => 3,
            PipelineStage::TessellationControlShader => 4,
            PipelineStage::TessellationEvaluationShader => 5,
            PipelineStage::GeometryShader => 6,
            PipelineStage::FragmentShader => 7,
            PipelineStage::EarlyFragmentTests => 8,
            PipelineStage::LateFragmentTests => 9,
            PipelineStage::ColorAttachmentOutput => 10,
            PipelineStage::ComputerShader => 11,
            PipelineStage::Transfer => 12,
            PipelineStage::BottomOfPipe => 13,
            PipelineStage::Host => 14,
            PipelineStage::AllGraphics => 15,
            PipelineStage::AllCommands => 16,
        }
    }

    open spec fn spec_from_index(i: u32) -> Self {
        if i == 0 {
            PipelineStage::TopOfPipe
        } else if i == 1 {
            PipelineStage::DrawIndirect
        } else if i == 2 {
            PipelineStage::VertexInput
        } else if i == 3 {
            PipelineStage::VertexShader
        } else if i == 4 {
            PipelineStage::TessellationControlShader
        } else if i == 5 {
            PipelineStage::TessellationEvaluationShader
        } else if i == 6 {
            PipelineStage::GeometryShader
        } else if i == 7 {
            PipelineStage::FragmentShader
        } else if i == 8 {
            PipelineStage::EarlyFragmentTests
        } else if i == 9 {
            PipelineStage::LateFragmentTests
        } else if i == 10 {
            PipelineStage::ColorAttachmentOutput
        } else if i == 11 {
            PipelineStage::ComputerShader
        } else if i == 12 {
            PipelineStage::Transfer
        } else if i == 13 {
            PipelineStage::BottomOfPipe
        } else if i == 14 {
            PipelineStage::Host
        } else if i == 15 {
            PipelineStage::AllGraphics
        } else {
            PipelineStage::AllCommands
        }
    }

    fn count() -> (r: u32) {
        17
    }

    fn index(self) -> (r: u32) {
        match self {
            PipelineStage::TopOfPipe => 0,
            PipelineStage::DrawIndirect => 1,
            PipelineStage::VertexInput => 2,
            PipelineStage::VertexShader => 3,
            PipelineStage::TessellationControlShader => 4,
            PipelineStage::TessellationEvaluationShader => 5,
            PipelineStage::GeometryShader => 6,
            PipelineStage::FragmentShader => 7,
            PipelineStage::EarlyFragmentTests => 8,
            PipelineStage::LateFragmentTests => 9,
            PipelineStage::ColorAttachmentOutput => 10,
            PipelineStage::ComputerShader => 11,
            PipelineStage::Transfer => 12,
            PipelineStage::BottomOfPipe => 13,
            PipelineStage::Host => 14,
            PipelineStage::AllGraphics => 15,
            PipelineStage::AllCommands => 16,
        }
    }

    fn from_index(i: u32) -> (r: Self) {
        if i == 0 {
            PipelineStage::TopOfPipe
        } else if i == 1 {
            PipelineStage::DrawIndirect
        } else if i == 2 {
            PipelineStage::VertexInput
        } else if i == 3 {
            PipelineStage::VertexShader
        } else if i == 4 {
            PipelineStage::TessellationControlShader
        } else if i == 5 {
            PipelineStage::TessellationEvaluationShader
        } else if i == 6 {
            PipelineStage::GeometryShader
        } else if i == 7 {
            PipelineStage::FragmentShader
        } else if i == 8 {
            PipelineStage::EarlyFragmentTests
        } else if i == 9 {
            PipelineStage::LateFragmentTests
        } else if i == 10 {
            PipelineStage::ColorAttachmentOutput
        } else if i == 11 {
            PipelineStage::ComputerShader
        } else if i == 12 {
            PipelineStage::Transfer
        } else if i == 13 {
            PipelineStage::BottomOfPipe
        } else if i == 14 {
            PipelineStage::Host
        } else if i == 15 {
            PipelineStage::AllGraphics
        } else {
            PipelineStage::AllCommands
        }
    }

    proof fn lemma_count() {
    }

    proof fn lemma_index(x: Self) {
    }

    proof fn lemma_from_index(i: u32) {
    }
}

impl PipelineStage {
    /// The raw `VkPipelineStageFlags` bit of the flag.
    pub fn to_vk(self) -> (r: u32)
        ensures
            r == flag_bit(self),
    {
        1u32 << self.index()
    }

    /// The set of the flags listed in a vector.
    pub fn vecset(vec: &Vec<Self>) -> (r: FlagSet<Self>)
        ensures
            r.well_formed(),
            r.view() == vec@.to_set(),
    {
        FlagSet::from_vec(vec)
    }

    /// The raw `VkPipelineStageFlags` value with the bits of the flags in the set.
    pub fn fold(set: &FlagSet<Self>) -> (r: u32)
        requires
            set.well_formed(),
        ensures
            r == set.spec_mask(),
            forall|x: Self| #[trigger] has_bit(r, x.spec_index()) == set.view().contains(x),
            r < (1u32 << Self::spec_count()),
    {
        set.mask()
    }
}

impl PipelineStage {
    /// The name of the flag, as written by [`PipelineStage::to_string`].
    pub open spec fn spec_name(self) -> Seq<char> {
        match self {
            PipelineStage::TopOfPipe => "TopOfPipe"@,
            PipelineStage::DrawIndirect => "DrawIndirect"@,
            PipelineStage::VertexInput => "VertexInput"@,
            PipelineStage::VertexShader => "VertexShader"@,
            PipelineStage::TessellationControlShader => "TessellationControlShader"@,
            PipelineStage::TessellationEvaluationShader => "TessellationEvaluationShader"@,
            PipelineStage::GeometryShader => "GeometryShader"@,
            PipelineStage::FragmentShader => "FragmentShader"@,
            PipelineStage::EarlyFragmentTests => "EarlyFragmentTests"@,
            PipelineStage::LateFragmentTests => "LateFragmentTests"@,
            PipelineStage::ColorAttachmentOutput => "ColorAttachmentOutput"@,
            PipelineStage::ComputerShader => "ComputerShader"@,
            PipelineStage::Transfer => "Transfer"@,
            PipelineStage::BottomOfPipe => "BottomOfPipe"@,
            PipelineStage::Host => "Host"@,
            PipelineStage::AllGraphics => "AllGraphics"@,
            PipelineStage::AllCommands => "AllCommands"@,
        }
    }

    /// Returns the name of the flag.
    pub fn to_string(&self) -> (r: String)
        ensures
            r@ == self.spec_name(),
    {
        match self {
            PipelineStage::TopOfPipe => "TopOfPipe",
            PipelineStage::DrawIndirect => "DrawIndirect",
            PipelineStage::VertexInput => "VertexInput",
            PipelineStage::VertexShader => "VertexShader",
            PipelineStage::TessellationControlShader => "TessellationControlShader",
            PipelineStage::TessellationEvaluationShader => "TessellationEvaluationShader",
            PipelineStage::GeometryShader => "GeometryShader",
            PipelineStage::FragmentShader => "FragmentShader",
            PipelineStage::EarlyFragmentTests => "EarlyFragmentTests",
            PipelineStage::LateFragmentTests => "LateFragmentTests",
            PipelineStage::ColorAttachmentOutput => "ColorAttachmentOutput",
            PipelineStage::ComputerShader => "ComputerShader",
            PipelineStage::Transfer => "Transfer",
            PipelineStage::BottomOfPipe => "BottomOfPipe",
            PipelineStage::Host => "Host",
            PipelineStage::AllGraphics => "AllGraphics",
            PipelineStage::AllCommands => "AllCommands",
        }.to_owned()
    }

    /// Parses the name of a flag (as written by [`PipelineStage::to_string`]).
    pub fn try_from(value: &str) -> (r: Result<Self, ()>)
        ensures
            r matches Ok(x) ==> value@ == x.spec_name(),
            r is Err ==> forall|x: Self| value@ != #[trigger] x.spec_name(),
            forall|x: Self| value@ == #[trigger] x.spec_name() ==> r == Ok::<Self, ()>(x),
    {
        proof {
            assert forall|x: Self, y: Self| #[trigger] x.spec_name() == #[trigger] y.spec_name() implies x == y by {
                lemma_pipeline_stage_names_distinct(x, y);
            }
        }
        if str_equals(value, "TopOfPipe") {
            proof {
                assert(PipelineStage::TopOfPipe.spec_name() == value@);
            }
            Ok(PipelineStage::TopOfPipe)
        } else if str_equals(value, "DrawIndirect") {
            proof {
                assert(PipelineStage::DrawIndirect.spec_name() == value@);
            }
            Ok(PipelineStage::DrawIndirect)
        } else if str_equals(value, "VertexInput") {
            proof {
                assert(PipelineStage::VertexInput.spec_name() == value@);
            }
            Ok(PipelineStage::VertexInput)
        } else if str_equals(value, "VertexShader") {
            proof {
                assert(PipelineStage::VertexShader.spec_name() == value@);
            }
            Ok(PipelineStage::VertexShader)
        } else if str_equals(value, "TessellationControlShader") {
            proof {
                assert(PipelineStage::TessellationControlShader.spec_name() == value@);
            }
            Ok(PipelineStage::TessellationControlShader)
        } else if str_equals(value, "TessellationEvaluationShader") {
            proof {
                assert(PipelineStage::TessellationEvaluationShader.spec_name() == value@);
            }
            Ok(PipelineStage::TessellationEvaluationShader)
        } else if str_equals(value, "GeometryShader") {
            proof {
                assert(PipelineStage::GeometryShader.spec_name() == value@);
            }
            Ok(PipelineStage::GeometryShader)
        } else if str_equals(value, "FragmentShader") {
            proof {
                assert(PipelineStage::FragmentShader.spec_name() == value@);
            }
            Ok(PipelineStage::FragmentShader)
        } else if str_equals(value, "EarlyFragmentTests") {
            proof {
                assert(PipelineStage::EarlyFragmentTests.spec_name() == value@);
            }
            Ok(PipelineStage::EarlyFragmentTests)
        } else if str_equals(value, "LateFragmentTests") {
            proof {
                assert(PipelineStage::LateFragmentTests.spec_name() == value@);
            }
            Ok(PipelineStage::LateFragmentTests)
        } else if str_equals(value, "ColorAttachmentOutput") {
            proof {
                assert(PipelineStage::ColorAttachmentOutput.spec_name() == value@);
            }
            Ok(PipelineStage::ColorAttachmentOutput)
        } else if str_equals(value, "ComputerShader") {
            proof {
                assert(PipelineStage::ComputerShader.spec_name() == value@);
            }
            Ok(PipelineStage::ComputerShader)
        } else if str_equals(value, "Transfer") {
            proof {
                assert(PipelineStage::Transfer.spec_name() == value@);
            }
            Ok(PipelineStage::Transfer)
        } else if str_equals(value, "BottomOfPipe") {
            proof {
                assert(PipelineStage::BottomOfPipe.spec_name() == value@);
            }
            Ok(PipelineStage::BottomOfPipe)
        } else if str_equals(value, "Host") {
            proof {
                assert(PipelineStage::Host.spec_name() == value@);
            }
            Ok(PipelineStage::Host)
        } else if str_equals(value, "AllGraphics") {
            proof {
                assert(PipelineStage::AllGraphics.spec_name() == value@);
            }
            Ok(PipelineStage::AllGraphics)
        } else if str_equals(value, "AllCommands") {
            proof {
                assert(PipelineStage::AllCommands.spec_name() == value@);
            }
            Ok(PipelineStage::AllCommands)
        } else {
            proof {
                assert forall|x: Self| value@ != #[trigger] x.spec_name() by {
                    match x {
                        PipelineStage::TopOfPipe => {},
                        PipelineStage::DrawIndirect => {},
                        PipelineStage::VertexInput => {},
                        PipelineStage::VertexShader => {},
                        PipelineStage::TessellationControlShader => {},
                        PipelineStage::TessellationEvaluationShader => {},
                        PipelineStage::GeometryShader => {},
                        PipelineStage::FragmentShader => {},
                        PipelineStage::EarlyFragmentTests => {},
                        PipelineStage::LateFragmentTests => {},
                        PipelineStage::ColorAttachmentOutput => {},
                        PipelineStage::ComputerShader => {},
                        PipelineStage::Transfer => {},
                        PipelineStage::BottomOfPipe => {},
                        PipelineStage::Host => {},
                        PipelineStage::AllGraphics => {},
                        PipelineStage::AllCommands => {},
                    }
                }
            }
            Err(())
        }
    }

    /// Returns the names of all the flags, in the order of their bits.
    pub fn all_serialized() -> (r: Vec<String>)
        ensures
            r@.len() == Self::spec_count(),
            forall|i: int| 0 <= i < r@.len() ==> #[trigger] r@[i]@ == Self::spec_from_index(i as u32).spec_name(),
    {
        let n = Self::count();
        let mut out: Vec<String> = Vec::new();
        let mut i: u32 = 0;
        while i < n
            invariant
                n == Self::spec_count(),
                i <= n,
                out@.len() == i,
                forall|k: int| 0 <= k < i ==> #[trigger] out@[k]@ == Self::spec_from_index(k as u32).spec_name(),
            decreases n - i,
        {
            let flag = Self::from_index(i);
            out.push(flag.to_string());
            i = i + 1;
        }
        out
    }
}

/// Distinct flags have distinct names, so parsing the name of a flag gives the flag back:
/// `PipelineStage::try_from(&x.to_string()) == Ok(x)`.
pub proof fn lemma_pipeline_stage_names_distinct(a: PipelineStage, b: PipelineStage)
    ensures
        a.spec_name() == b.spec_name() ==> a == b,
{
    broadcast use vstd::string::group_string_axioms;

    reveal_strlit("TopOfPipe");
    reveal_strlit("DrawIndirect");
    reveal_strlit("VertexInput");
    reveal_strlit("VertexShader");
    reveal_strlit("TessellationControlShader");
    reveal_strlit("TessellationEvaluationShader");
    reveal_strlit("GeometryShader");
    reveal_strlit("FragmentShader");
    reveal_strlit("EarlyFragmentTests");
    reveal_strlit("LateFragmentTests");
    reveal_strlit("ColorAttachmentOutput");
    reveal_strlit("ComputerShader");
    reveal_strlit("Transfer");
    reveal_strlit("BottomOfPipe");
    reveal_strlit("Host");
    reveal_strlit("AllGraphics");
    reveal_strlit("AllCommands");
    assert(PipelineStage::TopOfPipe.spec_name().len() == 9);
    assert(PipelineStage::DrawIndirect.spec_name().len() == 12);
    assert(PipelineStage::VertexInput.spec_name().len() == 11);
    assert(PipelineStage::VertexShader.spec_name().len() == 12);
    assert(PipelineStage::TessellationControlShader.spec_name().len() == 25);
    assert(PipelineStage::TessellationEvaluationShader.spec_name().len() == 28);
    assert(PipelineStage::GeometryShader.spec_name().len() == 14);
    assert(PipelineStage::FragmentShader.spec_name().len() == 14);
    assert(PipelineStage::EarlyFragmentTests.spec_name().len() == 18);
    assert(PipelineStage::LateFragmentTests.spec_name().len() == 17);
    assert(PipelineStage::ColorAttachmentOutput.spec_name().len() == 21);
    assert(PipelineStage::ComputerShader.spec_name().len() == 14);
    assert(PipelineStage::Transfer.spec_name().len() == 8);
    assert(PipelineStage::BottomOfPipe.spec_name().len() == 12);
    assert(PipelineStage::Host.spec_name().len() == 4);
    assert(PipelineStage::AllGraphics.spec_name().len() == 11);
    assert(PipelineStage::AllCommands.spec_name().len() == 11);
    assert(PipelineStage::DrawIndirect.spec_name()[0] == 'D');
    assert(PipelineStage::VertexShader.spec_name()[0] == 'V');
    assert(PipelineStage::BottomOfPipe.spec_name()[0] == 'B');
    assert(PipelineStage::VertexInput.spec_name()[3] == 't');
    assert(PipelineStage::AllGraphics.spec_name()[3] == 'G');
    assert(PipelineStage::AllCommands.spec_name()[3] == 'C');
    assert(PipelineStage::GeometryShader.spec_name()[0] == 'G');
    assert(PipelineStage::FragmentShader.spec_name()[0] == 'F');
    assert(PipelineStage::ComputerShader.spec_name()[0] == 'C');
}


/// Each pipeline stage's bit is its `VkPipelineStageFlagBits` constant: `TOP_OF_PIPE` is 0x1, ...,
/// `FRAGMENT_SHADER` 0x80, ..., `COMPUTE_SHADER` 0x800, ..., `ALL_COMMANDS` 0x10000. So the raw
/// stage mask [`PipelineStage::to_vk`] gives, and the wait stage a submission records for a
/// semaphore, is exactly the stage's Vulkan bit.
pub proof fn lemma_pipeline_stage_vk_bits()
    ensures
        flag_bit(PipelineStage::TopOfPipe) == 0x1u32,
        flag_bit(PipelineStage::DrawIndirect) == 0x2u32,
        flag_bit(PipelineStage::VertexInput) == 0x4u32,
        flag_bit(PipelineStage::VertexShader) == 0x8u32,
        flag_bit(PipelineStage::TessellationControlShader) == 0x10u32,
        flag_bit(PipelineStage::TessellationEvaluationShader) == 0x20u32,
        flag_bit(PipelineStage::GeometryShader) == 0x40u32,
        flag_bit(PipelineStage::FragmentShader) == 0x80u32,
        flag_bit(PipelineStage::EarlyFragmentTests) == 0x100u32,
        flag_bit(PipelineStage::LateFragmentTests) == 0x200u32,
        flag_bit(PipelineStage::ColorAttachmentOutput) == 0x400u32,
        flag_bit(PipelineStage::ComputerShader) == 0x800u32,
        flag_bit(PipelineStage::Transfer) == 0x1000u32,
        flag_bit(PipelineStage::BottomOfPipe) == 0x2000u32,
        flag_bit(PipelineStage::Host) == 0x4000u32,
        flag_bit(PipelineStage::AllGraphics) == 0x8000u32,
        flag_bit(PipelineStage::AllCommands) == 0x10000u32,
{
    lemma_low_bits();
}

} // verus!
