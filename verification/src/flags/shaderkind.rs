//! The kinds of shaders (`VkShaderStageFlags`).

use vstd::prelude::*;
use crate::text::str_equals;

verus! {

/// A kind of shader, i.e. the pipeline stage it runs in.
#[derive(Debug, Clone, Copy, PartialEq, Eq, Hash, Structural)]
pub enum ShaderKind {
    Vertex,
    Fragment,
    Geometry,
    Compute,
    TessControl,
    TessEval,
    Task,
    Mesh,
    Raygen,
    AnyHit,
    ClosedHit,
    Miss,
    Intersection,
    Callable,
}

impl ShaderKind {
    /// The raw `VkShaderStageFlagBits` bit of the stage.
    pub open spec fn spec_vk(self) -> u32 {
        match self {
            ShaderKind::Vertex => 0x1,
            ShaderKind::TessControl => 0x2,
            ShaderKind::TessEval => 0x4,
            ShaderKind::Geometry => 0x8,
            ShaderKind::Fragment => 0x10,
            ShaderKind::Compute => 0x20,
            ShaderKind::Task => 0x40,
            ShaderKind::Mesh => 0x80,
            ShaderKind::Raygen => 0x100,
            ShaderKind::AnyHit => 0x200,
            ShaderKind::ClosedHit => 0x400,
            ShaderKind::Miss => 0x800,
            ShaderKind::Intersection => 0x1000,
            ShaderKind::Callable => 0x2000,
        }
    }

    /// The raw `VkShaderStageFlags` of the stage.
    pub fn to_vk(&self) -> (r: u32)
        ensures
            r == self.spec_vk(),
    {
        match self {
            ShaderKind::Vertex => 0x1,
            ShaderKind::Fragment => 0x10,
            ShaderKind::Geometry => 0x8,
            ShaderKind::Compute => 0x20,
            ShaderKind::TessControl => 0x2,
            ShaderKind::TessEval => 0x4,
            ShaderKind::Task => 0x40,
            ShaderKind::Mesh => 0x80,
            ShaderKind::Raygen => 0x100,
            ShaderKind::AnyHit => 0x200,
            ShaderKind::ClosedHit => 0x400,
            ShaderKind::Miss => 0x800,
            ShaderKind::Intersection => 0x1000,
            ShaderKind::Callable => 0x2000,
        }
    }

    /// The name of the kind (the variant's name).
    pub open spec fn spec_name(self) -> Seq<char> {
        match self {
            ShaderKind::Vertex => "Vertex"@,
            ShaderKind::Fragment => "Fragment"@,
            ShaderKind::Geometry => "Geometry"@,
            ShaderKind::Compute => "Compute"@,
            ShaderKind::TessControl => "TessControl"@,
            ShaderKind::TessEval => "TessEval"@,
            ShaderKind::Task => "Task"@,
            ShaderKind::Mesh => "Mesh"@,
            ShaderKind::Raygen => "Raygen"@,
            ShaderKind::AnyHit => "AnyHit"@,
            ShaderKind::ClosedHit => "ClosedHit"@,
            ShaderKind::Miss => "Miss"@,
            ShaderKind::Intersection => "Intersection"@,
            ShaderKind::Callable => "Callable"@,
        }
    }

    /// The name of the kind (the variant's name).
    pub fn into_string(self) -> (r: String)
        ensures
            r@ == self.spec_name(),
    {
        match self {
            Self::Vertex => "Vertex",
            Self::Fragment => "Fragment",
            Self::Geometry => "Geometry",
            Self::Compute => "Compute",
            Self::TessControl => "TessControl",
            Self::TessEval => "TessEval",
            Self::Task => "Task",
            Self::Mesh => "Mesh",
            Self::Raygen => "Raygen",
            Self::AnyHit => "AnyHit",
            Self::ClosedHit => "ClosedHit",
            Self::Miss => "Miss",
            Self::Intersection => "Intersection",
            Self::Callable => "Callable",
        }.to_owned()
    }

    /// The lower-case name shaders of the kind are tagged with; only the six
    /// classic stages have one (the others are empty).
    pub open spec fn spec_tag(self) -> Seq<char> {
        match self {
            ShaderKind::Vertex => "vertex"@,
            ShaderKind::Fragment => "fragment"@,
            ShaderKind::Geometry => "geometry"@,
            ShaderKind::Compute => "compute"@,
            ShaderKind::TessControl => "tess-control"@,
            ShaderKind::TessEval => "tess-eval"@,
            _ => Seq::empty(),
        }
    }

    /// The lower-case tag of the kind (empty for the stages that have none).
    pub fn _to_string(&self) -> (r: String)
        ensures
            r@ == self.spec_tag(),
    {
        match self {
            ShaderKind::Vertex => "vertex".to_owned(),
            ShaderKind::Fragment => "fragment".to_owned(),
            ShaderKind::Geometry => "geometry".to_owned(),
            ShaderKind::Compute => "compute".to_owned(),
            ShaderKind::TessControl => "tess-control".to_owned(),
            ShaderKind::TessEval => "tess-eval".to_owned(),
            _ => String::new(),
        }
    }

    /// Parses the lower-case tag of a kind.
    pub fn _from_string(s: &str) -> (r: Option<ShaderKind>)
        ensures
            r matches Some(k) ==> s@ == k.spec_tag() && s@.len() > 0,
            r is None ==> forall|k: ShaderKind| s@ != #[trigger] k.spec_tag() || s@.len() == 0,
            forall|k: ShaderKind| s@ == #[trigger] k.spec_tag() && s@.len() > 0 ==> r == Some(k),
    {
        proof {
            assert forall|x: ShaderKind, y: ShaderKind|
                #[trigger] x.spec_tag() == #[trigger] y.spec_tag() && x.spec_tag().len() > 0 implies x == y by {
                lemma_tags_distinct(x, y);
            }
        }
        if str_equals(s, "vertex") {
            proof { lemma_tags_distinct(ShaderKind::Vertex, ShaderKind::Vertex); }
            Some(ShaderKind::Vertex)
        } else if str_equals(s, "fragment") {
            proof { lemma_tags_distinct(ShaderKind::Fragment, ShaderKind::Fragment); }
            Some(ShaderKind::Fragment)
        } else if str_equals(s, "geometry") {
            proof { lemma_tags_distinct(ShaderKind::Geometry, ShaderKind::Geometry); }
            Some(ShaderKind::Geometry)
        } else if str_equals(s, "compute") {
            proof { lemma_tags_distinct(ShaderKind::Compute, ShaderKind::Compute); }
            Some(ShaderKind::Compute)
        } else if str_equals(s, "tess-control") {
            proof { lemma_tags_distinct(ShaderKind::TessControl, ShaderKind::TessControl); }
            Some(ShaderKind::TessControl)
        } else if str_equals(s, "tess-eval") {
            proof { lemma_tags_distinct(ShaderKind::TessEval, ShaderKind::TessEval); }
            Some(ShaderKind::TessEval)
        } else {
            None
        }
    }
}

/// The tags of the six classic stages are non-empty and distinct, so parsing a stage's
/// tag gives the stage back: `ShaderKind::_from_string(&k._to_string()) == Some(k)`.
pub proof fn lemma_tags_distinct(a: ShaderKind, b: ShaderKind)
    ensures
        a.spec_tag().len() > 0 && a.spec_tag() == b.spec_tag() ==> a == b,
        a.spec_tag().len() > 0 <==> (a == ShaderKind::Vertex || a == ShaderKind::Fragment || a == ShaderKind::Geometry
            || a == ShaderKind::Compute || a == ShaderKind::TessControl || a == ShaderKind::TessEval),
{
    broadcast use vstd::string::group_string_axioms;

    reveal_strlit("vertex");
    reveal_strlit("fragment");
    reveal_strlit("geometry");
    reveal_strlit("compute");
    reveal_strlit("tess-control");
    reveal_strlit("tess-eval");
    assert("vertex"@.len() == 6);
    assert("fragment"@.len() == 8);
    assert("geometry"@.len() == 8);
    assert("compute"@.len() == 7);
    assert("tess-control"@.len() == 12);
    assert("tess-eval"@.len() == 9);
    assert("fragment"@[0] == 'f');
    assert("geometry"@[0] == 'g');
}

/// Each stage is a single, distinct bit of `VkShaderStageFlags`.
pub proof fn lemma_stage_bits_distinct(a: ShaderKind, b: ShaderKind)
    ensures
        a.spec_vk() == b.spec_vk() ==> a == b,
        a.spec_vk() != 0,
{
}


/// Each shader kind maps to its `VkShaderStageFlagBits` constant: `VERTEX` 0x1, `TESSELLATION_CONTROL`
/// 0x2, `TESSELLATION_EVALUATION` 0x4, `GEOMETRY` 0x8, `FRAGMENT` 0x10, `COMPUTE` 0x20,
/// `TASK_EXT` 0x40, `MESH_EXT` 0x80, `RAYGEN_KHR` 0x100, `ANY_HIT_KHR` 0x200, `CLOSEST_HIT_KHR` 0x400,
/// `MISS_KHR` 0x800, `INTERSECTION_KHR` 0x1000 and `CALLABLE_KHR` 0x2000. So what
/// [`ShaderKind::to_vk`] gives, and the stage flags of a descriptor set layout binding, is the
/// Vulkan bit of the stage it names.
pub proof fn lemma_shader_kind_vk_bits()
    ensures
        ShaderKind::Vertex.spec_vk() == 0x1u32,
        ShaderKind::TessControl.spec_vk() == 0x2u32,
        ShaderKind::TessEval.spec_vk() == 0x4u32,
        ShaderKind::Geometry.spec_vk() == 0x8u32,
        ShaderKind::Fragment.spec_vk() == 0x10u32,
        ShaderKind::Compute.spec_vk() == 0x20u32,
        ShaderKind::Task.spec_vk() == 0x40u32,
        ShaderKind::Mesh.spec_vk() == 0x80u32,
        ShaderKind::Raygen.spec_vk() == 0x100u32,
        ShaderKind::AnyHit.spec_vk() == 0x200u32,
        ShaderKind::ClosedHit.spec_vk() == 0x400u32,
        ShaderKind::Miss.spec_vk() == 0x800u32,
        ShaderKind::Intersection.spec_vk() == 0x1000u32,
        ShaderKind::Callable.spec_vk() == 0x2000u32,
{
}

} // verus!
