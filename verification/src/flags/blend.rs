//! Blend factors and blend expressions, written as arithmetic over
//! [`Constant`]s, [`Factor`]s and the [`Source`] they are applied to.
//! `broadcast use group_blend_parts;` makes what each operation builds known to a caller.

use vstd::prelude::*;
use vstd::std_specs::convert::FromSpecImpl;
use vstd::std_specs::ops::{AddSpecImpl, MulSpecImpl, SubSpecImpl};
use core::ops::{Add, Mul, Sub};

verus! {

/// A constant blend factor.
#[derive(Debug, PartialEq, Eq, Clone, Copy, Structural)]
pub enum Constant {
    Zero,
    One,
}

/// A blend factor read from one of the inputs of the blend equation.
#[derive(Debug, PartialEq, Eq, Clone, Copy, Structural)]
pub enum Factor {
    SrcColor,
    DstColor,
    SrcAlpha,
    DstAlpha,
    ConstantColor,
    ConstantAlpha,
    Src1Color,
    Src1Alpha,
}

#[derive(Debug, PartialEq, Eq, Clone, Copy, Structural)]
enum FactorType {
    Constant(Constant),
    Factor(Factor),
}

/// A blend factor, optionally subtracted from a constant (`1 - factor`).
#[derive(Debug, PartialEq, Eq, Clone, Copy, Structural)]
pub struct ModifiedFactor {
    modifier: Option<Constant>,
    factor: FactorType,
}


/// The raw value of the Vulkan blend factor that a plain [`Factor`] denotes.
pub open spec fn factor_code(f: Factor) -> i32 {
    match f {
        Factor::SrcColor => 2,
        Factor::DstColor => 4,
        Factor::SrcAlpha => 6,
        Factor::DstAlpha => 8,
        Factor::ConstantColor => 10,
        Factor::ConstantAlpha => 12,
        Factor::Src1Color => 15,
        Factor::Src1Alpha => 17,
    }
}

/// The raw value of the Vulkan blend factor that a [`Constant`] denotes.
pub open spec fn constant_code(c: Constant) -> i32 {
    match c {
        Constant::Zero => 0,
        Constant::One => 1,
    }
}

impl ModifiedFactor {
    /// Spec-level constructor (fields are private to this module).
    pub closed spec fn spec_new(modifier: Option<Constant>, factor: Option<Factor>, constant: Constant) -> ModifiedFactor {
        ModifiedFactor {
            modifier,
            factor: match factor {
                Some(f) => FactorType::Factor(f),
                None => FactorType::Constant(constant),
            },
        }
    }

    /// The constant the factor is subtracted from, if any.
    pub closed spec fn modifier(self) -> Option<Constant> {
        self.modifier
    }

    /// The plain factor, when the base of this factor is not a constant.
    pub closed spec fn base_factor(self) -> Option<Factor> {
        match self.factor {
            FactorType::Factor(f) => Some(f),
            FactorType::Constant(_) => None,
        }
    }

    /// The constant, when the base of this factor is a constant.
    pub closed spec fn base_constant(self) -> Option<Constant> {
        match self.factor {
            FactorType::Constant(c) => Some(c),
            FactorType::Factor(_) => None,
        }
    }

    /// A factor that can be built from the public operations:
    /// a plain constant, a plain factor, or `One - factor`.
    pub open spec fn well_formed(self) -> bool {
        match self.modifier() {
            None => true,
            Some(c) => c == Constant::One && self.base_factor() is Some,
        }
    }

    /// The raw Vulkan blend factor that this factor denotes.
    /// `1 - X` is the enumerant right after `X`; any other modifier denotes `ZERO`.
    pub open spec fn spec_vk(self) -> i32 {
        match (self.modifier(), self.base_factor(), self.base_constant()) {
            (None, Some(f), _) => factor_code(f),
            (None, None, Some(c)) => constant_code(c),
            (Some(Constant::One), Some(f), _) => (factor_code(f) + 1) as i32,
            _ => 0,
        }
    }

    /// The raw value of the Vulkan blend factor this factor denotes.
    pub fn into_vk(self) -> (r: i32)
        ensures
            r == self.spec_vk(),
    {
        match self {
            // Constants
            ModifiedFactor { modifier: None, factor: FactorType::Constant(Constant::Zero) } => 0,
            ModifiedFactor { modifier: None, factor: FactorType::Constant(Constant::One) } => 1,
            // Src
            ModifiedFactor { modifier: None, factor: FactorType::Factor(Factor::SrcColor) } => 2,
            ModifiedFactor { modifier: Some(Constant::One), factor: FactorType::Factor(Factor::SrcColor) } => 3,
            ModifiedFactor { modifier: None, factor: FactorType::Factor(Factor::SrcAlpha) } => 6,
            ModifiedFactor { modifier: Some(Constant::One), factor: FactorType::Factor(Factor::SrcAlpha) } => 7,
            // Dst
            ModifiedFactor { modifier: None, factor: FactorType::Factor(Factor::DstColor) } => 4,
            ModifiedFactor { modifier: Some(Constant::One), factor: FactorType::Factor(Factor::DstColor) } => 5,
            ModifiedFactor { modifier: None, factor: FactorType::Factor(Factor::DstAlpha) } => 8,
            ModifiedFactor { modifier: Some(Constant::One), factor: FactorType::Factor(Factor::DstAlpha) } => 9,
            // const
            ModifiedFactor { modifier: None, factor: FactorType::Factor(Factor::ConstantColor) } => 10,
            ModifiedFactor { modifier: Some(Constant::One), factor: FactorType::Factor(Factor::ConstantColor) } => 11,
            ModifiedFactor { modifier: None, factor: FactorType::Factor(Factor::ConstantAlpha) } => 12,
            ModifiedFactor { modifier: Some(Constant::One), factor: FactorType::Factor(Factor::ConstantAlpha) } => 13,
            // src1
            ModifiedFactor { modifier: None, factor: FactorType::Factor(Factor::Src1Color) } => 15,
            ModifiedFactor { modifier: Some(Constant::One), factor: FactorType::Factor(Factor::Src1Color) } => 16,
            ModifiedFactor { modifier: None, factor: FactorType::Factor(Factor::Src1Alpha) } => 17,
            ModifiedFactor { modifier: Some(Constant::One), factor: FactorType::Factor(Factor::Src1Alpha) } => 18,
            // no-op
            _ => 0,
        }
    }
}

impl From<Constant> for ModifiedFactor {
    fn from(c: Constant) -> (r: ModifiedFactor) {
        ModifiedFactor { modifier: None, factor: FactorType::Constant(c) }
    }
}

impl FromSpecImpl<Constant> for ModifiedFactor {
    open spec fn obeys_from_spec() -> bool {
        true
    }

    open spec fn from_spec(c: Constant) -> ModifiedFactor {
        ModifiedFactor::spec_new(None, None, c)
    }
}

impl From<Factor> for ModifiedFactor {
    fn from(f: Factor) -> (r: ModifiedFactor) {
        ModifiedFactor { modifier: None, factor: FactorType::Factor(f) }
    }
}

impl FromSpecImpl<Factor> for ModifiedFactor {
    open spec fn obeys_from_spec() -> bool {
        true
    }

    open spec fn from_spec(f: Factor) -> ModifiedFactor {
        ModifiedFactor::spec_new(None, Some(f), Constant::Zero)
    }
}

impl Constant {
    /// The raw value of the Vulkan blend factor this constant denotes.
    pub fn into_vk(self) -> (r: i32)
        ensures
            r == constant_code(self),
            r == ModifiedFactor::spec_new(None, None, self).spec_vk(),
    {
        ModifiedFactor::from(self).into_vk()
    }
}

impl Factor {
    /// The raw value of the Vulkan blend factor this factor denotes.
    pub fn into_vk(self) -> (r: i32)
        ensures
            r == factor_code(self),
            r == ModifiedFactor::spec_new(None, Some(self), Constant::Zero).spec_vk(),
    {
        ModifiedFactor::from(self).into_vk()
    }
}

/// `One - factor`: the factor subtracted from one.
/// `Zero` is not a valid modifier (`0 - factor` is no blend factor), so it is refused by `requires`.
impl Sub<Factor> for Constant {
    type Output = ModifiedFactor;

    fn sub(self, rhs: Factor) -> (r: ModifiedFactor) {
        ModifiedFactor { modifier: Some(self), factor: FactorType::Factor(rhs) }
    }
}

impl SubSpecImpl<Factor> for Constant {
    open spec fn obeys_sub_spec() -> bool {
        true
    }

    open spec fn sub_req(self, rhs: Factor) -> bool {
        self == Constant::One
    }

    open spec fn sub_spec(self, rhs: Factor) -> ModifiedFactor {
        ModifiedFactor::spec_new(Some(self), Some(rhs), Constant::Zero)
    }
}


/// Which input of the blend equation a factor is applied to.
#[derive(Debug, PartialEq, Eq, Clone, Copy, Structural)]
pub enum Source {
    /// The color being written (the new fragment).
    New,
    /// The color already in the attachment.
    Old,
}

/// A (possibly modified) factor applied to one input of the blend equation.
#[derive(Debug, PartialEq, Eq, Clone, Copy, Structural)]
pub struct SourceModifiedFactor {
    source: Source,
    factor: ModifiedFactor,
}

impl SourceModifiedFactor {
    pub closed spec fn spec_new(source: Source, factor: ModifiedFactor) -> SourceModifiedFactor {
        SourceModifiedFactor { source, factor }
    }

    /// The input the factor is applied to.
    pub closed spec fn source(self) -> Source {
        self.source
    }

    /// The factor applied to the input.
    pub closed spec fn factor(self) -> ModifiedFactor {
        self.factor
    }
}

impl Mul<Source> for ModifiedFactor {
    type Output = SourceModifiedFactor;

    fn mul(self, source: Source) -> (r: SourceModifiedFactor) {
        SourceModifiedFactor { source, factor: self }
    }
}

impl MulSpecImpl<Source> for ModifiedFactor {
    open spec fn obeys_mul_spec() -> bool {
        true
    }

    open spec fn mul_req(self, source: Source) -> bool {
        true
    }

    open spec fn mul_spec(self, source: Source) -> SourceModifiedFactor {
        SourceModifiedFactor::spec_new(source, self)
    }
}

impl Mul<Source> for Constant {
    type Output = SourceModifiedFactor;

    fn mul(self, source: Source) -> (r: SourceModifiedFactor) {
        SourceModifiedFactor { source, factor: ModifiedFactor::from(self) }
    }
}

impl MulSpecImpl<Source> for Constant {
    open spec fn obeys_mul_spec() -> bool {
        true
    }

    open spec fn mul_req(self, source: Source) -> bool {
        true
    }

    open spec fn mul_spec(self, source: Source) -> SourceModifiedFactor {
        SourceModifiedFactor::spec_new(source, ModifiedFactor::spec_new(None, None, self))
    }
}

impl Mul<Source> for Factor {
    type Output = SourceModifiedFactor;

    fn mul(self, source: Source) -> (r: SourceModifiedFactor) {
        SourceModifiedFactor { source, factor: ModifiedFactor::from(self) }
    }
}

impl MulSpecImpl<Source> for Factor {
    open spec fn obeys_mul_spec() -> bool {
        true
    }

    open spec fn mul_req(self, source: Source) -> bool {
        true
    }

    open spec fn mul_spec(self, source: Source) -> SourceModifiedFactor {
        SourceModifiedFactor::spec_new(source, ModifiedFactor::spec_new(None, Some(self), Constant::Zero))
    }
}

/// The factor of whichever of `a` and `b` is applied to `source`
/// (`b`'s factor when neither is).
pub open spec fn spec_pick(source: Source, a: SourceModifiedFactor, b: SourceModifiedFactor) -> ModifiedFactor {
    if a.source() == source {
        a.factor()
    } else {
        b.factor()
    }
}

impl Source {
    /// Returns the factor of whichever of `a` and `b` is applied to this source.
    pub fn pick(&self, a: &SourceModifiedFactor, b: &SourceModifiedFactor) -> (r: ModifiedFactor)
        ensures
            r == spec_pick(*self, *a, *b),
    {
        if a.source == *self {
            a.factor
        } else {
            b.factor
        }
    }
}

/// The raw Vulkan blend operation `VK_BLEND_OP_ADD`.
pub open spec fn op_add() -> i32 { 0 }
/// The raw Vulkan blend operation `VK_BLEND_OP_SUBTRACT` (`new - old`).
pub open spec fn op_subtract() -> i32 { 1 }
/// The raw Vulkan blend operation `VK_BLEND_OP_REVERSE_SUBTRACT` (`old - new`).
pub open spec fn op_reverse_subtract() -> i32 { 2 }
/// The raw Vulkan blend operation `VK_BLEND_OP_MIN`.
pub open spec fn op_min() -> i32 { 3 }
/// The raw Vulkan blend operation `VK_BLEND_OP_MAX`.
pub open spec fn op_max() -> i32 { 4 }

/// A blend equation: `src` is the raw factor applied to the new color,
/// `dst` the raw factor applied to the old color, and `op` the raw operation combining them.
#[derive(Debug, PartialEq, Eq, Clone, Copy, Structural)]
pub struct Expression {
    pub src: i32,
    pub op: i32,
    pub dst: i32,
}

/// The blend equation that combines `a` and `b` with the raw operation `op`:
/// the new-color factor goes to `src` and the old-color factor to `dst`, whatever the operand order.
pub open spec fn spec_expression(a: SourceModifiedFactor, b: SourceModifiedFactor, op: i32) -> Expression {
    Expression {
        src: spec_pick(Source::New, a, b).spec_vk(),
        op,
        dst: spec_pick(Source::Old, a, b).spec_vk(),
    }
}

/// `a - b`: `new - old` is `SUBTRACT`, `old - new` is `REVERSE_SUBTRACT`.
pub open spec fn spec_difference(a: SourceModifiedFactor, b: SourceModifiedFactor) -> Expression {
    spec_expression(a, b, if a.source() == Source::New { op_subtract() } else { op_reverse_subtract() })
}

impl Add<SourceModifiedFactor> for SourceModifiedFactor {
    type Output = Expression;

    fn add(self, other: SourceModifiedFactor) -> (r: Expression) {
        Expression {
            src: Source::New.pick(&self, &other).into_vk(),
            op: 0,
            dst: Source::Old.pick(&self, &other).into_vk(),
        }
    }
}

impl AddSpecImpl<SourceModifiedFactor> for SourceModifiedFactor {
    open spec fn obeys_add_spec() -> bool {
        true
    }

    /// Two factors of the same source cannot be added.
    open spec fn add_req(self, other: SourceModifiedFactor) -> bool {
        self.source() != other.source()
    }

    open spec fn add_spec(self, other: SourceModifiedFactor) -> Expression {
        spec_expression(self, other, op_add())
    }
}

impl Sub<SourceModifiedFactor> for SourceModifiedFactor {
    type Output = Expression;

    fn sub(self, other: SourceModifiedFactor) -> (r: Expression) {
        let op: i32 = if self.source == Source::New { 1 } else { 2 };
        Expression {
            src: Source::New.pick(&self, &other).into_vk(),
            op,
            dst: Source::Old.pick(&self, &other).into_vk(),
        }
    }
}

impl SubSpecImpl<SourceModifiedFactor> for SourceModifiedFactor {
    open spec fn obeys_sub_spec() -> bool {
        true
    }

    /// Two factors of the same source cannot be subtracted.
    open spec fn sub_req(self, other: SourceModifiedFactor) -> bool {
        self.source() != other.source()
    }

    open spec fn sub_spec(self, other: SourceModifiedFactor) -> Expression {
        spec_difference(self, other)
    }
}

impl SourceModifiedFactor {
    /// The blend equation taking the minimum of the two weighted inputs.
    pub fn min(&self, other: &Self) -> (r: Expression)
        requires
            self.source() != other.source(),
        ensures
            r == spec_expression(*self, *other, op_min()),
    {
        Expression {
            src: Source::New.pick(&self, &other).into_vk(),
            op: 3,
            dst: Source::Old.pick(&self, &other).into_vk(),
        }
    }

    /// The blend equation taking the maximum of the two weighted inputs.
    pub fn max(&self, other: &Self) -> (r: Expression)
        requires
            self.source() != other.source(),
        ensures
            r == spec_expression(*self, *other, op_max()),
    {
        Expression {
            src: Source::New.pick(&self, &other).into_vk(),
            op: 4,
            dst: Source::Old.pick(&self, &other).into_vk(),
        }
    }
}


/// The two sides of a blend equation do not depend on the order in which its
/// operands are written: `a + b`, `a.min(b)` and `a.max(b)` equal `b + a`,
/// `b.min(a)` and `b.max(a)`.
pub proof fn lemma_expression_symmetric(a: SourceModifiedFactor, b: SourceModifiedFactor, op: i32)
    requires
        a.source() != b.source(),
    ensures
        spec_expression(a, b, op) == spec_expression(b, a, op),
{
}

/// Subtracting in the other order keeps both factors and turns `SUBTRACT`
/// into `REVERSE_SUBTRACT` (and back): `new - old` and `old - new` are mirror images.
pub proof fn lemma_sub_reverses(a: SourceModifiedFactor, b: SourceModifiedFactor)
    requires
        a.source() != b.source(),
    ensures
        spec_difference(a, b).src == spec_difference(b, a).src,
        spec_difference(a, b).dst == spec_difference(b, a).dst,
        spec_difference(a, b).op == op_subtract() <==> spec_difference(b, a).op == op_reverse_subtract(),
        spec_difference(a, b).op == op_reverse_subtract() <==> spec_difference(b, a).op == op_subtract(),
{
}

/// Every factor the public operations build is well formed:
/// a plain constant, a plain factor, and `One - factor`.
pub proof fn lemma_built_factors_well_formed(c: Constant, f: Factor)
    ensures
        ModifiedFactor::spec_new(None, None, c).well_formed(),
        ModifiedFactor::spec_new(None, Some(f), Constant::Zero).well_formed(),
        ModifiedFactor::spec_new(Some(Constant::One), Some(f), Constant::Zero).well_formed(),
        ModifiedFactor::spec_new(None, Some(f), Constant::Zero).base_factor() == Some(f),
        ModifiedFactor::spec_new(Some(Constant::One), Some(f), Constant::Zero).base_factor() == Some(f),
        ModifiedFactor::spec_new(None, None, c).base_constant() == Some(c),
{
}

/// Distinct well-formed factors denote distinct Vulkan blend factors,
/// all of them enumerants between `ZERO` (0) and `ONE_MINUS_SRC1_ALPHA` (18).
pub proof fn lemma_vk_injective(a: ModifiedFactor, b: ModifiedFactor)
    requires
        a.well_formed(),
        b.well_formed(),
    ensures
        0 <= a.spec_vk() <= 18,
        a.spec_vk() == b.spec_vk() ==> a.modifier() == b.modifier() && a.base_factor() == b.base_factor()
            && a.base_constant() == b.base_constant(),
{
    reveal_factor_parts(a);
    reveal_factor_parts(b);
}

proof fn reveal_factor_parts(m: ModifiedFactor)
    ensures
        m.base_factor() is Some <==> m.base_constant() is None,
{
}

/// What the spec-level constructor of a factor builds: a factor with the modifier, base
/// factor and base constant it was given. `From`, `Constant - Factor` and `*` build their
/// factors with it, so this states what each of them builds.
pub broadcast proof fn lemma_factor_parts(modifier: Option<Constant>, factor: Option<Factor>, constant: Constant)
    ensures
        (#[trigger] ModifiedFactor::spec_new(modifier, factor, constant)).modifier() == modifier,
        ModifiedFactor::spec_new(modifier, factor, constant).base_factor() == factor,
        ModifiedFactor::spec_new(modifier, factor, constant).base_constant()
            == (if factor is Some { None } else { Some(constant) }),
{
}

/// What the spec-level constructor of a factor applied to a source builds: `*` applies
/// the factor to exactly the source it is given.
pub broadcast proof fn lemma_source_parts(source: Source, factor: ModifiedFactor)
    ensures
        (#[trigger] SourceModifiedFactor::spec_new(source, factor)).source() == source,
        SourceModifiedFactor::spec_new(source, factor).factor() == factor,
{
}

/// The facts on what the blend operations build, for `broadcast use`.
pub broadcast group group_blend_parts {
    lemma_factor_parts,
    lemma_source_parts,
}

/// A plain constant or factor (what `From` builds) has the Vulkan value of that constant or factor.
pub proof fn lemma_from_values(c: Constant, f: Factor)
    ensures
        ModifiedFactor::spec_new(None, None, c).spec_vk() == constant_code(c),
        ModifiedFactor::spec_new(None, Some(f), Constant::Zero).spec_vk() == factor_code(f),
{
}

/// `One - f` (what `Constant - Factor` builds from `One`) is the `ONE_MINUS` form of `f`:
/// the Vulkan enumerant right after `f`'s.
pub proof fn lemma_one_minus(f: Factor)
    ensures
        ModifiedFactor::spec_new(Some(Constant::One), Some(f), Constant::Zero).modifier() == Some(Constant::One),
        ModifiedFactor::spec_new(Some(Constant::One), Some(f), Constant::Zero).base_factor() == Some(f),
        ModifiedFactor::spec_new(Some(Constant::One), Some(f), Constant::Zero).well_formed(),
        ModifiedFactor::spec_new(Some(Constant::One), Some(f), Constant::Zero).spec_vk() == factor_code(f) + 1,
{
}

/// `x * s` (for a modified factor, a constant or a factor `x`) applies the factor of `x`
/// to the source `s`.
pub proof fn lemma_products(m: ModifiedFactor, c: Constant, f: Factor, s: Source)
    ensures
        SourceModifiedFactor::spec_new(s, m).source() == s,
        SourceModifiedFactor::spec_new(s, m).factor() == m,
        SourceModifiedFactor::spec_new(s, ModifiedFactor::spec_new(None, None, c)).source() == s,
        SourceModifiedFactor::spec_new(s, ModifiedFactor::spec_new(None, None, c)).factor() == ModifiedFactor::spec_new(None, None, c),
        SourceModifiedFactor::spec_new(s, ModifiedFactor::spec_new(None, Some(f), Constant::Zero)).source() == s,
        SourceModifiedFactor::spec_new(s, ModifiedFactor::spec_new(None, Some(f), Constant::Zero)).factor() == ModifiedFactor::spec_new(None, Some(f), Constant::Zero),
{
}

} // verus!
