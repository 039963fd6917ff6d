use ash::vk;
use vulkan_rs::flags::blend::{Constant, Expression, Factor, ModifiedFactor, Source};

fn factor(f: Factor) -> i32 {
    ModifiedFactor::from(f).into_vk()
}

fn constant_code(c: Constant) -> i32 {
    ModifiedFactor::from(c).into_vk()
}

#[test]
fn constant() {
    assert_eq!(vk::BlendFactor::ZERO.as_raw(), constant_code(Constant::Zero));
    assert_eq!(vk::BlendFactor::ONE.as_raw(), constant_code(Constant::One));
}

#[test]
fn src() {
    assert_eq!(vk::BlendFactor::DST_COLOR.as_raw(), factor(Factor::DstColor));
    assert_eq!(vk::BlendFactor::ONE_MINUS_DST_COLOR.as_raw(), (Constant::One - Factor::DstColor).into_vk());
    assert_eq!(vk::BlendFactor::DST_ALPHA.as_raw(), factor(Factor::DstAlpha));
    assert_eq!(vk::BlendFactor::ONE_MINUS_DST_ALPHA.as_raw(), (Constant::One - Factor::DstAlpha).into_vk());
}

#[test]
fn dst() {
    assert_eq!(vk::BlendFactor::DST_COLOR.as_raw(), factor(Factor::DstColor));
    assert_eq!(vk::BlendFactor::ONE_MINUS_DST_COLOR.as_raw(), (Constant::One - Factor::DstColor).into_vk());
    assert_eq!(vk::BlendFactor::DST_ALPHA.as_raw(), factor(Factor::DstAlpha));
    assert_eq!(vk::BlendFactor::ONE_MINUS_DST_ALPHA.as_raw(), (Constant::One - Factor::DstAlpha).into_vk());
}

#[test]
fn constant_factor() {
    assert_eq!(vk::BlendFactor::CONSTANT_COLOR.as_raw(), factor(Factor::ConstantColor));
    assert_eq!(vk::BlendFactor::ONE_MINUS_CONSTANT_COLOR.as_raw(), (Constant::One - Factor::ConstantColor).into_vk());
    assert_eq!(vk::BlendFactor::CONSTANT_ALPHA.as_raw(), factor(Factor::ConstantAlpha));
    assert_eq!(vk::BlendFactor::ONE_MINUS_CONSTANT_ALPHA.as_raw(), (Constant::One - Factor::ConstantAlpha).into_vk());
}

#[test]
fn src1() {
    assert_eq!(vk::BlendFactor::SRC1_COLOR.as_raw(), factor(Factor::Src1Color));
    assert_eq!(vk::BlendFactor::ONE_MINUS_SRC1_COLOR.as_raw(), (Constant::One - Factor::Src1Color).into_vk());
    assert_eq!(vk::BlendFactor::SRC1_ALPHA.as_raw(), factor(Factor::Src1Alpha));
    assert_eq!(vk::BlendFactor::ONE_MINUS_SRC1_ALPHA.as_raw(), (Constant::One - Factor::Src1Alpha).into_vk());
}

#[test]
fn only_new() {
    assert_eq!(
        Expression {
            src: vk::BlendFactor::ONE.as_raw(),
            op: vk::BlendOp::ADD.as_raw(),
            dst: vk::BlendFactor::ZERO.as_raw(),
        },
        (Constant::One * Source::New) + (Constant::Zero * Source::Old)
    );
}

// rgb = (src.a * src.rgb) + ((1 - src.a) * dst.rgb)
#[test]
fn alpha_blending() {
    assert_eq!(
        Expression {
            src: vk::BlendFactor::SRC_ALPHA.as_raw(),
            op: vk::BlendOp::ADD.as_raw(),
            dst: vk::BlendFactor::ONE_MINUS_SRC_ALPHA.as_raw(),
        },
        (Factor::SrcAlpha * Source::New) + ((Constant::One - Factor::SrcAlpha) * Source::Old)
    );
}

#[test]
fn operand_order_does_not_matter() {
    let a = (Factor::SrcAlpha * Source::New) + ((Constant::One - Factor::SrcAlpha) * Source::Old);
    let b = ((Constant::One - Factor::SrcAlpha) * Source::Old) + (Factor::SrcAlpha * Source::New);
    assert_eq!(a, b);
}

#[test]
fn subtraction_picks_the_direction() {
    let new_minus_old = (Factor::SrcColor * Source::New) - (Factor::DstColor * Source::Old);
    assert_eq!(new_minus_old.op, vk::BlendOp::SUBTRACT.as_raw());
    assert_eq!(new_minus_old.src, vk::BlendFactor::SRC_COLOR.as_raw());
    assert_eq!(new_minus_old.dst, vk::BlendFactor::DST_COLOR.as_raw());
    let old_minus_new = (Factor::DstColor * Source::Old) - (Factor::SrcColor * Source::New);
    assert_eq!(old_minus_new.op, vk::BlendOp::REVERSE_SUBTRACT.as_raw());
    assert_eq!(old_minus_new.src, vk::BlendFactor::SRC_COLOR.as_raw());
    assert_eq!(old_minus_new.dst, vk::BlendFactor::DST_COLOR.as_raw());
}

#[test]
fn min_and_max() {
    let a = Constant::One * Source::New;
    let b = Factor::SrcAlpha * Source::Old;
    assert_eq!(a.min(&b).op, vk::BlendOp::MIN.as_raw());
    assert_eq!(a.max(&b).op, vk::BlendOp::MAX.as_raw());
    assert_eq!(a.max(&b).src, vk::BlendFactor::ONE.as_raw());
    assert_eq!(a.max(&b).dst, vk::BlendFactor::SRC_ALPHA.as_raw());
}
