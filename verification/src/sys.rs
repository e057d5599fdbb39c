//! Values of LÖVR's C enumerations, as the C compiler numbers them: each
//! enumerator is its position in its declaration, counting from zero.
use vstd::prelude::*;

verus! {
// os_key
pub const OS_KEY_A: u32 = 0;
pub const OS_KEY_B: u32 = 1;
pub const OS_KEY_C: u32 = 2;
pub const OS_KEY_D: u32 = 3;
pub const OS_KEY_E: u32 = 4;
pub const OS_KEY_F: u32 = 5;
pub const OS_KEY_G: u32 = 6;
pub const OS_KEY_H: u32 = 7;
pub const OS_KEY_I: u32 = 8;
pub const OS_KEY_J: u32 = 9;
pub const OS_KEY_K: u32 = 10;
pub const OS_KEY_L: u32 = 11;
pub const OS_KEY_M: u32 = 12;
pub const OS_KEY_N: u32 = 13;
pub const OS_KEY_O: u32 = 14;
pub const OS_KEY_P: u32 = 15;
pub const OS_KEY_Q: u32 = 16;
pub const OS_KEY_R: u32 = 17;
pub const OS_KEY_S: u32 = 18;
pub const OS_KEY_T: u32 = 19;
pub const OS_KEY_U: u32 = 20;
pub const OS_KEY_V: u32 = 21;
pub const OS_KEY_W: u32 = 22;
pub const OS_KEY_X: u32 = 23;
pub const OS_KEY_Y: u32 = 24;
pub const OS_KEY_Z: u32 = 25;
pub const OS_KEY_0: u32 = 26;
pub const OS_KEY_1: u32 = 27;
pub const OS_KEY_2: u32 = 28;
pub const OS_KEY_3: u32 = 29;
pub const OS_KEY_4: u32 = 30;
pub const OS_KEY_5: u32 = 31;
pub const OS_KEY_6: u32 = 32;
pub const OS_KEY_7: u32 = 33;
pub const OS_KEY_8: u32 = 34;
pub const OS_KEY_9: u32 = 35;
pub const OS_KEY_SPACE: u32 = 36;
pub const OS_KEY_ENTER: u32 = 37;
pub const OS_KEY_TAB: u32 = 38;
pub const OS_KEY_ESCAPE: u32 = 39;
pub const OS_KEY_BACKSPACE: u32 = 40;
pub const OS_KEY_UP: u32 = 41;
pub const OS_KEY_DOWN: u32 = 42;
pub const OS_KEY_LEFT: u32 = 43;
pub const OS_KEY_RIGHT: u32 = 44;
pub const OS_KEY_HOME: u32 = 45;
pub const OS_KEY_END: u32 = 46;
pub const OS_KEY_PAGE_UP: u32 = 47;
pub const OS_KEY_PAGE_DOWN: u32 = 48;
pub const OS_KEY_INSERT: u32 = 49;
pub const OS_KEY_DELETE: u32 = 50;
pub const OS_KEY_F1: u32 = 51;
pub const OS_KEY_F2: u32 = 52;
pub const OS_KEY_F3: u32 = 53;
pub const OS_KEY_F4: u32 = 54;
pub const OS_KEY_F5: u32 = 55;
pub const OS_KEY_F6: u32 = 56;
pub const OS_KEY_F7: u32 = 57;
pub const OS_KEY_F8: u32 = 58;
pub const OS_KEY_F9: u32 = 59;
pub const OS_KEY_F10: u32 = 60;
pub const OS_KEY_F11: u32 = 61;
pub const OS_KEY_F12: u32 = 62;
pub const OS_KEY_BACKTICK: u32 = 63;
pub const OS_KEY_MINUS: u32 = 64;
pub const OS_KEY_EQUALS: u32 = 65;
pub const OS_KEY_LEFT_BRACKET: u32 = 66;
pub const OS_KEY_RIGHT_BRACKET: u32 = 67;
pub const OS_KEY_BACKSLASH: u32 = 68;
pub const OS_KEY_SEMICOLON: u32 = 69;
pub const OS_KEY_APOSTROPHE: u32 = 70;
pub const OS_KEY_COMMA: u32 = 71;
pub const OS_KEY_PERIOD: u32 = 72;
pub const OS_KEY_SLASH: u32 = 73;
pub const OS_KEY_KP_0: u32 = 74;
pub const OS_KEY_KP_1: u32 = 75;
pub const OS_KEY_KP_2: u32 = 76;
pub const OS_KEY_KP_3: u32 = 77;
pub const OS_KEY_KP_4: u32 = 78;
pub const OS_KEY_KP_5: u32 = 79;
pub const OS_KEY_KP_6: u32 = 80;
pub const OS_KEY_KP_7: u32 = 81;
pub const OS_KEY_KP_8: u32 = 82;
pub const OS_KEY_KP_9: u32 = 83;
pub const OS_KEY_KP_DECIMAL: u32 = 84;
pub const OS_KEY_KP_DIVIDE: u32 = 85;
pub const OS_KEY_KP_MULTIPLY: u32 = 86;
pub const OS_KEY_KP_SUBTRACT: u32 = 87;
pub const OS_KEY_KP_ADD: u32 = 88;
pub const OS_KEY_KP_ENTER: u32 = 89;
pub const OS_KEY_KP_EQUALS: u32 = 90;
pub const OS_KEY_LEFT_CONTROL: u32 = 91;
pub const OS_KEY_LEFT_SHIFT: u32 = 92;
pub const OS_KEY_LEFT_ALT: u32 = 93;
pub const OS_KEY_LEFT_OS: u32 = 94;
pub const OS_KEY_RIGHT_CONTROL: u32 = 95;
pub const OS_KEY_RIGHT_SHIFT: u32 = 96;
pub const OS_KEY_RIGHT_ALT: u32 = 97;
pub const OS_KEY_RIGHT_OS: u32 = 98;
pub const OS_KEY_CAPS_LOCK: u32 = 99;
pub const OS_KEY_SCROLL_LOCK: u32 = 100;
pub const OS_KEY_NUM_LOCK: u32 = 101;
pub const OS_KEY_COUNT: u32 = 102;

// EventType
pub const EVENT_QUIT: u32 = 0;
pub const EVENT_RESTART: u32 = 1;
pub const EVENT_VISIBLE: u32 = 2;
pub const EVENT_FOCUS: u32 = 3;
pub const EVENT_MOUNT: u32 = 4;
pub const EVENT_RECENTER: u32 = 5;
pub const EVENT_MODELSCHANGED: u32 = 6;
pub const EVENT_RESIZE: u32 = 7;
pub const EVENT_KEYPRESSED: u32 = 8;
pub const EVENT_KEYRELEASED: u32 = 9;
pub const EVENT_TEXTINPUT: u32 = 10;
pub const EVENT_MOUSEPRESSED: u32 = 11;
pub const EVENT_MOUSERELEASED: u32 = 12;
pub const EVENT_MOUSEMOVED: u32 = 13;
pub const EVENT_MOUSEWHEELMOVED: u32 = 14;
pub const EVENT_THREAD_ERROR: u32 = 15;
pub const EVENT_FILECHANGED: u32 = 16;
pub const EVENT_PERMISSION: u32 = 17;
pub const EVENT_CUSTOM: u32 = 18;

// DisplayType
pub const DISPLAY_HEADSET: u32 = 0;
pub const DISPLAY_WINDOW: u32 = 1;

// FileAction
pub const FILE_CREATE: u32 = 0;
pub const FILE_DELETE: u32 = 1;
pub const FILE_MODIFY: u32 = 2;
pub const FILE_RENAME: u32 = 3;

// Permission
pub const PERMISSION_AUDIO_CAPTURE: u32 = 0;

// DrawStyle
pub const STYLE_FILL: u32 = 0;
pub const STYLE_LINE: u32 = 1;

// StackType
pub const STACK_TRANSFORM: u32 = 0;
pub const STACK_STATE: u32 = 1;

// BlendMode
pub const BLEND_ALPHA: u32 = 0;
pub const BLEND_ADD: u32 = 1;
pub const BLEND_SUBTRACT: u32 = 2;
pub const BLEND_MULTIPLY: u32 = 3;
pub const BLEND_LIGHTEN: u32 = 4;
pub const BLEND_DARKEN: u32 = 5;
pub const BLEND_SCREEN: u32 = 6;
pub const BLEND_NONE: u32 = 7;

// BlendAlphaMode
pub const BLEND_ALPHA_MULTIPLY: u32 = 0;
pub const BLEND_PREMULTIPLIED: u32 = 1;

// CullMode
pub const CULL_NONE: u32 = 0;
pub const CULL_FRONT: u32 = 1;
pub const CULL_BACK: u32 = 2;

// CompareMode
pub const COMPARE_NONE: u32 = 0;
pub const COMPARE_EQUAL: u32 = 1;
pub const COMPARE_NEQUAL: u32 = 2;
pub const COMPARE_LESS: u32 = 3;
pub const COMPARE_LEQUAL: u32 = 4;
pub const COMPARE_GREATER: u32 = 5;
pub const COMPARE_GEQUAL: u32 = 6;

// DrawMode
pub const DRAW_POINTS: u32 = 0;
pub const DRAW_LINES: u32 = 1;
pub const DRAW_TRIANGLES: u32 = 2;

// StencilAction
pub const STENCIL_KEEP: u32 = 0;
pub const STENCIL_ZERO: u32 = 1;
pub const STENCIL_REPLACE: u32 = 2;
pub const STENCIL_INCREMENT: u32 = 3;
pub const STENCIL_DECREMENT: u32 = 4;
pub const STENCIL_INCREMENT_WRAP: u32 = 5;
pub const STENCIL_DECREMENT_WRAP: u32 = 6;
pub const STENCIL_INVERT: u32 = 7;

// Winding
pub const WINDING_COUNTERCLOCKWISE: u32 = 0;
pub const WINDING_CLOCKWISE: u32 = 1;

} // verus!
