use lovr_rs::lovr::graphics::{
    convert_points, stencil_action_codes, BlendAlphaMode, BlendMode, CompareMode, CullMode,
    DrawMode, DrawStyle, StackType, StencilAction, Winding,
};

#[test]
fn draw_style_codes() {
    assert_eq!(u32::from(DrawStyle::Fill), 0);
    assert_eq!(u32::from(DrawStyle::Line), 1);
    let code: u32 = DrawStyle::Line.into();
    assert_eq!(code, 1);
}

#[test]
fn stack_type_codes() {
    assert_eq!(u32::from(StackType::Transform), 0);
    assert_eq!(u32::from(StackType::State), 1);
}

#[test]
fn blend_mode_codes() {
    let modes = [
        BlendMode::Alpha,
        BlendMode::Add,
        BlendMode::Subtract,
        BlendMode::Multiply,
        BlendMode::Lighten,
        BlendMode::Darken,
        BlendMode::Screen,
        BlendMode::Disabled,
    ];
    for (i, mode) in modes.iter().enumerate() {
        assert_eq!(u32::from(*mode), i as u32);
    }
}

#[test]
fn blend_alpha_mode_codes() {
    assert_eq!(u32::from(BlendAlphaMode::AlphaMultiply), 0);
    assert_eq!(u32::from(BlendAlphaMode::Premultiplied), 1);
}

#[test]
fn cull_mode_codes() {
    assert_eq!(u32::from(CullMode::Disabled), 0);
    assert_eq!(u32::from(CullMode::Front), 1);
    assert_eq!(u32::from(CullMode::Back), 2);
}

#[test]
fn compare_mode_codes() {
    let modes = [
        CompareMode::Disabled,
        CompareMode::Equal,
        CompareMode::NEqual,
        CompareMode::Less,
        CompareMode::LEqual,
        CompareMode::Greater,
        CompareMode::GEqual,
    ];
    for (i, mode) in modes.iter().enumerate() {
        assert_eq!(u32::from(*mode), i as u32);
    }
}

#[test]
fn draw_mode_codes() {
    assert_eq!(u32::from(DrawMode::Points), 0);
    assert_eq!(u32::from(DrawMode::Lines), 1);
    assert_eq!(u32::from(DrawMode::Triangles), 2);
}

#[test]
fn stencil_action_codes_each() {
    let actions = [
        StencilAction::Keep,
        StencilAction::Zero,
        StencilAction::Replace,
        StencilAction::Increment,
        StencilAction::Decrement,
        StencilAction::IncrementWrap,
        StencilAction::DecrementWrap,
        StencilAction::Invert,
    ];
    for (i, action) in actions.iter().enumerate() {
        assert_eq!(u32::from(*action), i as u32);
    }
}

#[test]
fn winding_codes() {
    assert_eq!(u32::from(Winding::CounterClockwise), 0);
    assert_eq!(u32::from(Winding::Clockwise), 1);
}

#[test]
fn stencil_write_codes_keep_order() {
    let codes = stencil_action_codes(&[
        StencilAction::Invert,
        StencilAction::Keep,
        StencilAction::IncrementWrap,
    ]);
    assert_eq!(codes, [7, 0, 5]);
}

#[test]
fn convert_points_lays_out_triples() {
    let flat = convert_points(&[[1.0f32, 2.0, 3.0], [4.0, 5.0, 6.0]]);
    assert_eq!(flat, vec![1.0, 2.0, 3.0, 4.0, 5.0, 6.0]);
}

#[test]
fn convert_points_empty() {
    let flat: Vec<f32> = convert_points(&[]);
    assert!(flat.is_empty());
}

#[test]
fn convert_points_single_point() {
    let flat = convert_points(&[[-0.5f32, 0.0, 9.25]]);
    assert_eq!(flat, vec![-0.5, 0.0, 9.25]);
}
