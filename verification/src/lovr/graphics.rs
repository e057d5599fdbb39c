//! The drawing state and modes of a render pass, with their codes in LÖVR's
//! C interface, and the layout of point lists handed to it.
use vstd::prelude::*;

use crate::sys;

verus! {
/// Whether a shape is filled or drawn as an outline.
#[derive(Clone, Copy, Debug, PartialEq, Eq, Structural)]
pub enum DrawStyle {
    Fill,
    Line,
}

/// The C code of a [`DrawStyle`].
pub open spec fn draw_style_code(val: DrawStyle) -> u32 {
    match val {
        DrawStyle::Fill => sys::STYLE_FILL,
        DrawStyle::Line => sys::STYLE_LINE,
    }
}

impl From<DrawStyle> for u32 {
    fn from(val: DrawStyle) -> (code: u32) {
        match val {
            DrawStyle::Fill => sys::STYLE_FILL,
            DrawStyle::Line => sys::STYLE_LINE,
        }
    }
}

impl vstd::std_specs::convert::FromSpecImpl<DrawStyle> for u32 {
    open spec fn obeys_from_spec() -> bool {
        true
    }

    open spec fn from_spec(v: DrawStyle) -> u32 {
        draw_style_code(v)
    }
}

/// Which of a pass's stacks a push or pop acts on.
#[derive(Clone, Copy, Debug, PartialEq, Eq, Structural)]
pub enum StackType {
    Transform,
    State,
}

/// The C code of a [`StackType`].
pub open spec fn stack_type_code(val: StackType) -> u32 {
    match val {
        StackType::Transform => sys::STACK_TRANSFORM,
        StackType::State => sys::STACK_STATE,
    }
}

impl From<StackType> for u32 {
    fn from(val: StackType) -> (code: u32) {
        match val {
            StackType::Transform => sys::STACK_TRANSFORM,
            StackType::State => sys::STACK_STATE,
        }
    }
}

impl vstd::std_specs::convert::FromSpecImpl<StackType> for u32 {
    open spec fn obeys_from_spec() -> bool {
        true
    }

    open spec fn from_spec(v: StackType) -> u32 {
        stack_type_code(v)
    }
}

/// How drawn colors combine with the colors already in the canvas.
#[derive(Clone, Copy, Debug, PartialEq, Eq, Structural)]
pub enum BlendMode {
    Alpha,
    Add,
    Subtract,
    Multiply,
    Lighten,
    Darken,
    Screen,
    Disabled,
}

/// The C code of a [`BlendMode`].
pub open spec fn blend_mode_code(val: BlendMode) -> u32 {
    match val {
        BlendMode::Alpha => sys::BLEND_ALPHA,
        BlendMode::Add => sys::BLEND_ADD,
        BlendMode::Subtract => sys::BLEND_SUBTRACT,
        BlendMode::Multiply => sys::BLEND_MULTIPLY,
        BlendMode::Lighten => sys::BLEND_LIGHTEN,
        BlendMode::Darken => sys::BLEND_DARKEN,
        BlendMode::Screen => sys::BLEND_SCREEN,
        BlendMode::Disabled => sys::BLEND_NONE,
    }
}

impl From<BlendMode> for u32 {
    fn from(val: BlendMode) -> (code: u32) {
        match val {
            BlendMode::Alpha => sys::BLEND_ALPHA,
            BlendMode::Add => sys::BLEND_ADD,
            BlendMode::Subtract => sys::BLEND_SUBTRACT,
            BlendMode::Multiply => sys::BLEND_MULTIPLY,
            BlendMode::Lighten => sys::BLEND_LIGHTEN,
            BlendMode::Darken => sys::BLEND_DARKEN,
            BlendMode::Screen => sys::BLEND_SCREEN,
            BlendMode::Disabled => sys::BLEND_NONE,
        }
    }
}

impl vstd::std_specs::convert::FromSpecImpl<BlendMode> for u32 {
    open spec fn obeys_from_spec() -> bool {
        true
    }

    open spec fn from_spec(v: BlendMode) -> u32 {
        blend_mode_code(v)
    }
}

/// Whether colors are multiplied by their alpha before blending.
#[derive(Clone, Copy, Debug, PartialEq, Eq, Structural)]
pub enum BlendAlphaMode {
    AlphaMultiply,
    Premultiplied,
}

/// The C code of a [`BlendAlphaMode`].
pub open spec fn blend_alpha_mode_code(val: BlendAlphaMode) -> u32 {
    match val {
        BlendAlphaMode::AlphaMultiply => sys::BLEND_ALPHA_MULTIPLY,
        BlendAlphaMode::Premultiplied => sys::BLEND_PREMULTIPLIED,
    }
}

impl From<BlendAlphaMode> for u32 {
    fn from(val: BlendAlphaMode) -> (code: u32) {
        match val {
            BlendAlphaMode::AlphaMultiply => sys::BLEND_ALPHA_MULTIPLY,
            BlendAlphaMode::Premultiplied => sys::BLEND_PREMULTIPLIED,
        }
    }
}

impl vstd::std_specs::convert::FromSpecImpl<BlendAlphaMode> for u32 {
    open spec fn obeys_from_spec() -> bool {
        true
    }

    open spec fn from_spec(v: BlendAlphaMode) -> u32 {
        blend_alpha_mode_code(v)
    }
}

/// Which faces of a triangle are culled.
#[derive(Clone, Copy, Debug, PartialEq, Eq, Structural)]
pub enum CullMode {
    Disabled,
    Front,
    Back,
}

/// The C code of a [`CullMode`].
pub open spec fn cull_mode_code(val: CullMode) -> u32 {
    match val {
        CullMode::Disabled => sys::CULL_NONE,
        CullMode::Front => sys::CULL_FRONT,
        CullMode::Back => sys::CULL_BACK,
    }
}

impl From<CullMode> for u32 {
    fn from(val: CullMode) -> (code: u32) {
        match val {
            CullMode::Disabled => sys::CULL_NONE,
            CullMode::Front => sys::CULL_FRONT,
            CullMode::Back => sys::CULL_BACK,
        }
    }
}

impl vstd::std_specs::convert::FromSpecImpl<CullMode> for u32 {
    open spec fn obeys_from_spec() -> bool {
        true
    }

    open spec fn from_spec(v: CullMode) -> u32 {
        cull_mode_code(v)
    }
}

/// How a depth or stencil value is compared with the stored one.
#[derive(Clone, Copy, Debug, PartialEq, Eq, Structural)]
pub enum CompareMode {
    Disabled,
    Equal,
    NEqual,
    Less,
    LEqual,
    Greater,
    GEqual,
}

/// The C code of a [`CompareMode`].
pub open spec fn compare_mode_code(val: CompareMode) -> u32 {
    match val {
        CompareMode::Disabled => sys::COMPARE_NONE,
        CompareMode::Equal => sys::COMPARE_EQUAL,
        CompareMode::NEqual => sys::COMPARE_NEQUAL,
        CompareMode::Less => sys::COMPARE_LESS,
        CompareMode::LEqual => sys::COMPARE_LEQUAL,
        CompareMode::Greater => sys::COMPARE_GREATER,
        CompareMode::GEqual => sys::COMPARE_GEQUAL,
    }
}

impl From<CompareMode> for u32 {
    fn from(val: CompareMode) -> (code: u32) {
        match val {
            CompareMode::Disabled => sys::COMPARE_NONE,
            CompareMode::Equal => sys::COMPARE_EQUAL,
            CompareMode::NEqual => sys::COMPARE_NEQUAL,
            CompareMode::Less => sys::COMPARE_LESS,
            CompareMode::LEqual => sys::COMPARE_LEQUAL,
            CompareMode::Greater => sys::COMPARE_GREATER,
            CompareMode::GEqual => sys::COMPARE_GEQUAL,
        }
    }
}

impl vstd::std_specs::convert::FromSpecImpl<CompareMode> for u32 {
    open spec fn obeys_from_spec() -> bool {
        true
    }

    open spec fn from_spec(v: CompareMode) -> u32 {
        compare_mode_code(v)
    }
}

/// Which primitives the vertices of a mesh form.
#[derive(Clone, Copy, Debug, PartialEq, Eq, Structural)]
pub enum DrawMode {
    Points,
    Lines,
    Triangles,
}

/// The C code of a [`DrawMode`].
pub open spec fn draw_mode_code(val: DrawMode) -> u32 {
    match val {
        DrawMode::Points => sys::DRAW_POINTS,
        DrawMode::Lines => sys::DRAW_LINES,
        DrawMode::Triangles => sys::DRAW_TRIANGLES,
    }
}

impl From<DrawMode> for u32 {
    fn from(val: DrawMode) -> (code: u32) {
        match val {
            DrawMode::Points => sys::DRAW_POINTS,
            DrawMode::Lines => sys::DRAW_LINES,
            DrawMode::Triangles => sys::DRAW_TRIANGLES,
        }
    }
}

impl vstd::std_specs::convert::FromSpecImpl<DrawMode> for u32 {
    open spec fn obeys_from_spec() -> bool {
        true
    }

    open spec fn from_spec(v: DrawMode) -> u32 {
        draw_mode_code(v)
    }
}

/// What a stencil write does to the stored stencil value.
#[derive(Clone, Copy, Debug, PartialEq, Eq, Structural)]
pub enum StencilAction {
    Keep,
    Zero,
    Replace,
    Increment,
    Decrement,
    IncrementWrap,
    DecrementWrap,
    Invert,
}

/// The C code of a [`StencilAction`].
pub open spec fn stencil_action_code(val: StencilAction) -> u32 {
    match val {
        StencilAction::Keep => sys::STENCIL_KEEP,
        StencilAction::Zero => sys::STENCIL_ZERO,
        StencilAction::Replace => sys::STENCIL_REPLACE,
        StencilAction::Increment => sys::STENCIL_INCREMENT,
        StencilAction::Decrement => sys::STENCIL_DECREMENT,
        StencilAction::IncrementWrap => sys::STENCIL_INCREMENT_WRAP,
        StencilAction::DecrementWrap => sys::STENCIL_DECREMENT_WRAP,
        StencilAction::Invert => sys::STENCIL_INVERT,
    }
}

impl From<StencilAction> for u32 {
    fn from(val: StencilAction) -> (code: u32) {
        match val {
            StencilAction::Keep => sys::STENCIL_KEEP,
            StencilAction::Zero => sys::STENCIL_ZERO,
            StencilAction::Replace => sys::STENCIL_REPLACE,
            StencilAction::Increment => sys::STENCIL_INCREMENT,
            StencilAction::Decrement => sys::STENCIL_DECREMENT,
            StencilAction::IncrementWrap => sys::STENCIL_INCREMENT_WRAP,
            StencilAction::DecrementWrap => sys::STENCIL_DECREMENT_WRAP,
            StencilAction::Invert => sys::STENCIL_INVERT,
        }
    }
}

impl vstd::std_specs::convert::FromSpecImpl<StencilAction> for u32 {
    open spec fn obeys_from_spec() -> bool {
        true
    }

    open spec fn from_spec(v: StencilAction) -> u32 {
        stencil_action_code(v)
    }
}

/// Which vertex order makes a triangle front-facing.
#[derive(Clone, Copy, Debug, PartialEq, Eq, Structural)]
pub enum Winding {
    CounterClockwise,
    Clockwise,
}

/// The C code of a [`Winding`].
pub open spec fn winding_code(val: Winding) -> u32 {
    match val {
        Winding::CounterClockwise => sys::WINDING_COUNTERCLOCKWISE,
        Winding::Clockwise => sys::WINDING_CLOCKWISE,
    }
}

impl From<Winding> for u32 {
    fn from(val: Winding) -> (code: u32) {
        match val {
            Winding::CounterClockwise => sys::WINDING_COUNTERCLOCKWISE,
            Winding::Clockwise => sys::WINDING_CLOCKWISE,
        }
    }
}

impl vstd::std_specs::convert::FromSpecImpl<Winding> for u32 {
    open spec fn obeys_from_spec() -> bool {
        true
    }

    open spec fn from_spec(v: Winding) -> u32 {
        winding_code(v)
    }
}

/// Distinct modes have distinct C codes, for each of the enumerations above.
pub proof fn lemma_codes_are_distinct(
    draw_styles: (DrawStyle, DrawStyle),
    stack_types: (StackType, StackType),
    blend_modes: (BlendMode, BlendMode),
    blend_alpha_modes: (BlendAlphaMode, BlendAlphaMode),
    cull_modes: (CullMode, CullMode),
    compare_modes: (CompareMode, CompareMode),
    draw_modes: (DrawMode, DrawMode),
    stencil_actions: (StencilAction, StencilAction),
    windings: (Winding, Winding),
)
    ensures
        draw_style_code(draw_styles.0) == draw_style_code(draw_styles.1) ==> draw_styles.0 == draw_styles.1,
        stack_type_code(stack_types.0) == stack_type_code(stack_types.1) ==> stack_types.0 == stack_types.1,
        blend_mode_code(blend_modes.0) == blend_mode_code(blend_modes.1) ==> blend_modes.0 == blend_modes.1,
        blend_alpha_mode_code(blend_alpha_modes.0) == blend_alpha_mode_code(blend_alpha_modes.1) ==> blend_alpha_modes.0 == blend_alpha_modes.1,
        cull_mode_code(cull_modes.0) == cull_mode_code(cull_modes.1) ==> cull_modes.0 == cull_modes.1,
        compare_mode_code(compare_modes.0) == compare_mode_code(compare_modes.1) ==> compare_modes.0 == compare_modes.1,
        draw_mode_code(draw_modes.0) == draw_mode_code(draw_modes.1) ==> draw_modes.0 == draw_modes.1,
        stencil_action_code(stencil_actions.0) == stencil_action_code(stencil_actions.1) ==> stencil_actions.0 == stencil_actions.1,
        winding_code(windings.0) == winding_code(windings.1) ==> windings.0 == windings.1,
{
}

/// The C codes of the three stencil actions of a stencil write (for
/// failing the stencil test, failing the depth test, and passing both).
pub fn stencil_action_codes(actions: &[StencilAction; 3]) -> (codes: [u32; 3])
    ensures
        forall|i: int| 0 <= i < 3 ==> codes@[i] == stencil_action_code(#[trigger] actions@[i]),
{
    [actions[0].into(), actions[1].into(), actions[2].into()]
}

/// Lays a list of points out as one flat list of coordinates, three per
/// point: the coordinates of point `i` stand at `3i`, `3i + 1` and `3i + 2`.
pub fn convert_points<T: Copy>(vertices: &[[T; 3]]) -> (flat: Vec<T>)
    requires
        vertices@.len() * 3 <= usize::MAX,
    ensures
        flat@.len() == 3 * vertices@.len(),
        forall|i: int, j: int|
            0 <= i < vertices@.len() && 0 <= j < 3 ==> flat@[3 * i + j] == #[trigger] vertices@[i]@[j],
{
    let mut flat: Vec<T> = Vec::with_capacity(vertices.len() * 3);
    let mut k: usize = 0;
    while k < vertices.len()
        invariant
            k <= vertices@.len(),
            vertices@.len() * 3 <= usize::MAX,
            flat@.len() == 3 * k,
            forall|i: int, j: int|
                0 <= i < k && 0 <= j < 3 ==> flat@[3 * i + j] == #[trigger] vertices@[i]@[j],
        decreases vertices@.len() - k,
    {
        let v: [T; 3] = vertices[k];
        flat.push(v[0]);
        flat.push(v[1]);
        flat.push(v[2]);
        assert forall|i: int, j: int|
            0 <= i < k + 1 && 0 <= j < 3 implies flat@[3 * i + j] == #[trigger] vertices@[i]@[j] by {
            if i == k {
                assert(3 * i + j == 3 * k + j);
            }
        }
        k = k + 1;
    }
    flat
}

/// Each drawing mode has the C constant named after it.
pub proof fn lemma_mode_codes_by_name()
    ensures
        draw_style_code(DrawStyle::Fill) == sys::STYLE_FILL,
        draw_style_code(DrawStyle::Line) == sys::STYLE_LINE,
        stack_type_code(StackType::Transform) == sys::STACK_TRANSFORM,
        stack_type_code(StackType::State) == sys::STACK_STATE,
        blend_mode_code(BlendMode::Alpha) == sys::BLEND_ALPHA,
        blend_mode_code(BlendMode::Add) == sys::BLEND_ADD,
        blend_mode_code(BlendMode::Subtract) == sys::BLEND_SUBTRACT,
        blend_mode_code(BlendMode::Multiply) == sys::BLEND_MULTIPLY,
        blend_mode_code(BlendMode::Lighten) == sys::BLEND_LIGHTEN,
        blend_mode_code(BlendMode::Darken) == sys::BLEND_DARKEN,
        blend_mode_code(BlendMode::Screen) == sys::BLEND_SCREEN,
        blend_mode_code(BlendMode::Disabled) == sys::BLEND_NONE,
        blend_alpha_mode_code(BlendAlphaMode::AlphaMultiply) == sys::BLEND_ALPHA_MULTIPLY,
        blend_alpha_mode_code(BlendAlphaMode::Premultiplied) == sys::BLEND_PREMULTIPLIED,
        cull_mode_code(CullMode::Disabled) == sys::CULL_NONE,
        cull_mode_code(CullMode::Front) == sys::CULL_FRONT,
        cull_mode_code(CullMode::Back) == sys::CULL_BACK,
        compare_mode_code(CompareMode::Disabled) == sys::COMPARE_NONE,
        compare_mode_code(CompareMode::Equal) == sys::COMPARE_EQUAL,
        compare_mode_code(CompareMode::NEqual) == sys::COMPARE_NEQUAL,
        compare_mode_code(CompareMode::Less) == sys::COMPARE_LESS,
        compare_mode_code(CompareMode::LEqual) == sys::COMPARE_LEQUAL,
        compare_mode_code(CompareMode::Greater) == sys::COMPARE_GREATER,
        compare_mode_code(CompareMode::GEqual) == sys::COMPARE_GEQUAL,
        draw_mode_code(DrawMode::Points) == sys::DRAW_POINTS,
        draw_mode_code(DrawMode::Lines) == sys::DRAW_LINES,
        draw_mode_code(DrawMode::Triangles) == sys::DRAW_TRIANGLES,
        stencil_action_code(StencilAction::Keep) == sys::STENCIL_KEEP,
        stencil_action_code(StencilAction::Zero) == sys::STENCIL_ZERO,
        stencil_action_code(StencilAction::Replace) == sys::STENCIL_REPLACE,
        stencil_action_code(StencilAction::Increment) == sys::STENCIL_INCREMENT,
        stencil_action_code(StencilAction::Decrement) == sys::STENCIL_DECREMENT,
        stencil_action_code(StencilAction::IncrementWrap) == sys::STENCIL_INCREMENT_WRAP,
        stencil_action_code(StencilAction::DecrementWrap) == sys::STENCIL_DECREMENT_WRAP,
        stencil_action_code(StencilAction::Invert) == sys::STENCIL_INVERT,
        winding_code(Winding::CounterClockwise) == sys::WINDING_COUNTERCLOCKWISE,
        winding_code(Winding::Clockwise) == sys::WINDING_CLOCKWISE,
{
}

} // verus!
