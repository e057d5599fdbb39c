//! Events polled from LÖVR's queue: the keys, displays, file actions and
//! permissions that they name, and their decoding from the raw values that
//! the queue holds.
use vstd::prelude::*;
use vstd::utf8::{decode_utf8, valid_utf8};

use crate::sys;

verus! {

/// A key of the keyboard, by its place on a US layout.
#[derive(Clone, Copy, Debug, PartialEq, Eq, Structural)]
pub enum Key {
    A,
    B,
    C,
    D,
    E,
    F,
    G,
    H,
    I,
    J,
    K,
    L,
    M,
    N,
    O,
    P,
    Q,
    R,
    S,
    T,
    U,
    V,
    W,
    X,
    Y,
    Z,
    Number0,
    Number1,
    Number2,
    Number3,
    Number4,
    Number5,
    Number6,
    Number7,
    Number8,
    Number9,
    Space,
    Enter,
    Tab,
    Escape,
    Backspace,
    Up,
    Down,
    Left,
    Right,
    Home,
    End,
    PageUp,
    PageDown,
    Insert,
    Delete,
    F1,
    F2,
    F3,
    F4,
    F5,
    F6,
    F7,
    F8,
    F9,
    F10,
    F11,
    F12,
    Backtick,
    Minus,
    Equals,
    LeftBracket,
    RightBracket,
    Backslash,
    Semicolon,
    Apostrophe,
    Comma,
    Period,
    Slash,
    Kp0,
    Kp1,
    Kp2,
    Kp3,
    Kp4,
    Kp5,
    Kp6,
    Kp7,
    Kp8,
    Kp9,
    KpDecimal,
    KpDivide,
    KpMultiply,
    KpSubtract,
    KpAdd,
    KpEnter,
    KpEquals,
    LeftControl,
    LeftShift,
    LeftAlt,
    LeftOs,
    RightControl,
    RightShift,
    RightAlt,
    RightOs,
    CapsLock,
    ScrollLock,
    NumLock,
}

/// The code of a key in LÖVR's C interface.
pub open spec fn key_code(key: Key) -> u32 {
    match key {
        Key::A => sys::OS_KEY_A,
        Key::B => sys::OS_KEY_B,
        Key::C => sys::OS_KEY_C,
        Key::D => sys::OS_KEY_D,
        Key::E => sys::OS_KEY_E,
        Key::F => sys::OS_KEY_F,
        Key::G => sys::OS_KEY_G,
        Key::H => sys::OS_KEY_H,
        Key::I => sys::OS_KEY_I,
        Key::J => sys::OS_KEY_J,
        Key::K => sys::OS_KEY_K,
        Key::L => sys::OS_KEY_L,
        Key::M => sys::OS_KEY_M,
        Key::N => sys::OS_KEY_N,
        Key::O => sys::OS_KEY_O,
        Key::P => sys::OS_KEY_P,
        Key::Q => sys::OS_KEY_Q,
        Key::R => sys::OS_KEY_R,
        Key::S => sys::OS_KEY_S,
        Key::T => sys::OS_KEY_T,
        Key::U => sys::OS_KEY_U,
        Key::V => sys::OS_KEY_V,
        Key::W => sys::OS_KEY_W,
        Key::X => sys::OS_KEY_X,
        Key::Y => sys::OS_KEY_Y,
        Key::Z => sys::OS_KEY_Z,
        Key::Number0 => sys::OS_KEY_0,
        Key::Number1 => sys::OS_KEY_1,
        Key::Number2 => sys::OS_KEY_2,
        Key::Number3 => sys::OS_KEY_3,
        Key::Number4 => sys::OS_KEY_4,
        Key::Number5 => sys::OS_KEY_5,
        Key::Number6 => sys::OS_KEY_6,
        Key::Number7 => sys::OS_KEY_7,
        Key::Number8 => sys::OS_KEY_8,
        Key::Number9 => sys::OS_KEY_9,
        Key::Space => sys::OS_KEY_SPACE,
        Key::Enter => sys::OS_KEY_ENTER,
        Key::Tab => sys::OS_KEY_TAB,
        Key::Escape => sys::OS_KEY_ESCAPE,
        Key::Backspace => sys::OS_KEY_BACKSPACE,
        Key::Up => sys::OS_KEY_UP,
        Key::Down => sys::OS_KEY_DOWN,
        Key::Left => sys::OS_KEY_LEFT,
        Key::Right => sys::OS_KEY_RIGHT,
        Key::Home => sys::OS_KEY_HOME,
        Key::End => sys::OS_KEY_END,
        Key::PageUp => sys::OS_KEY_PAGE_UP,
        Key::PageDown => sys::OS_KEY_PAGE_DOWN,
        Key::Insert => sys::OS_KEY_INSERT,
        Key::Delete => sys::OS_KEY_DELETE,
        Key::F1 => sys::OS_KEY_F1,
        Key::F2 => sys::OS_KEY_F2,
        Key::F3 => sys::OS_KEY_F3,
        Key::F4 => sys::OS_KEY_F4,
        Key::F5 => sys::OS_KEY_F5,
        Key::F6 => sys::OS_KEY_F6,
        Key::F7 => sys::OS_KEY_F7,
        Key::F8 => sys::OS_KEY_F8,
        Key::F9 => sys::OS_KEY_F9,
        Key::F10 => sys::OS_KEY_F10,
        Key::F11 => sys::OS_KEY_F11,
        Key::F12 => sys::OS_KEY_F12,
        Key::Backtick => sys::OS_KEY_BACKTICK,
        Key::Minus => sys::OS_KEY_MINUS,
        Key::Equals => sys::OS_KEY_EQUALS,
        Key::LeftBracket => sys::OS_KEY_LEFT_BRACKET,
        Key::RightBracket => sys::OS_KEY_RIGHT_BRACKET,
        Key::Backslash => sys::OS_KEY_BACKSLASH,
        Key::Semicolon => sys::OS_KEY_SEMICOLON,
        Key::Apostrophe => sys::OS_KEY_APOSTROPHE,
        Key::Comma => sys::OS_KEY_COMMA,
        Key::Period => sys::OS_KEY_PERIOD,
        Key::Slash => sys::OS_KEY_SLASH,
        Key::Kp0 => sys::OS_KEY_KP_0,
        Key::Kp1 => sys::OS_KEY_KP_1,
        Key::Kp2 => sys::OS_KEY_KP_2,
        Key::Kp3 => sys::OS_KEY_KP_3,
        Key::Kp4 => sys::OS_KEY_KP_4,
        Key::Kp5 => sys::OS_KEY_KP_5,
        Key::Kp6 => sys::OS_KEY_KP_6,
        Key::Kp7 => sys::OS_KEY_KP_7,
        Key::Kp8 => sys::OS_KEY_KP_8,
        Key::Kp9 => sys::OS_KEY_KP_9,
        Key::KpDecimal => sys::OS_KEY_KP_DECIMAL,
        Key::KpDivide => sys::OS_KEY_KP_DIVIDE,
        Key::KpMultiply => sys::OS_KEY_KP_MULTIPLY,
        Key::KpSubtract => sys::OS_KEY_KP_SUBTRACT,
        Key::KpAdd => sys::OS_KEY_KP_ADD,
        Key::KpEnter => sys::OS_KEY_KP_ENTER,
        Key::KpEquals => sys::OS_KEY_KP_EQUALS,
        Key::LeftControl => sys::OS_KEY_LEFT_CONTROL,
        Key::LeftShift => sys::OS_KEY_LEFT_SHIFT,
        Key::LeftAlt => sys::OS_KEY_LEFT_ALT,
        Key::LeftOs => sys::OS_KEY_LEFT_OS,
        Key::RightControl => sys::OS_KEY_RIGHT_CONTROL,
        Key::RightShift => sys::OS_KEY_RIGHT_SHIFT,
        Key::RightAlt => sys::OS_KEY_RIGHT_ALT,
        Key::RightOs => sys::OS_KEY_RIGHT_OS,
        Key::CapsLock => sys::OS_KEY_CAPS_LOCK,
        Key::ScrollLock => sys::OS_KEY_SCROLL_LOCK,
        Key::NumLock => sys::OS_KEY_NUM_LOCK,
    }
}

/// Every key has a code below `OS_KEY_COUNT`, and no two keys share one.
pub proof fn lemma_key_codes_distinct(a: Key, b: Key)
    ensures
        key_code(a) < sys::OS_KEY_COUNT,
        key_code(a) == key_code(b) ==> a == b,
{
}

/// The key with code `code`; `None` when no key has that code.
pub fn keycode_to_key(code: u32) -> (r: Option<Key>)
    ensures
        r matches Some(key) ==> key_code(key) == code,
        r is None <==> code >= sys::OS_KEY_COUNT,
{
    match code {
        sys::OS_KEY_A => Some(Key::A),
        sys::OS_KEY_B => Some(Key::B),
        sys::OS_KEY_C => Some(Key::C),
        sys::OS_KEY_D => Some(Key::D),
        sys::OS_KEY_E => Some(Key::E),
        sys::OS_KEY_F => Some(Key::F),
        sys::OS_KEY_G => Some(Key::G),
        sys::OS_KEY_H => Some(Key::H),
        sys::OS_KEY_I => Some(Key::I),
        sys::OS_KEY_J => Some(Key::J),
        sys::OS_KEY_K => Some(Key::K),
        sys::OS_KEY_L => Some(Key::L),
        sys::OS_KEY_M => Some(Key::M),
        sys::OS_KEY_N => Some(Key::N),
        sys::OS_KEY_O => Some(Key::O),
        sys::OS_KEY_P => Some(Key::P),
        sys::OS_KEY_Q => Some(Key::Q),
        sys::OS_KEY_R => Some(Key::R),
        sys::OS_KEY_S => Some(Key::S),
        sys::OS_KEY_T => Some(Key::T),
        sys::OS_KEY_U => Some(Key::U),
        sys::OS_KEY_V => Some(Key::V),
        sys::OS_KEY_W => Some(Key::W),
        sys::OS_KEY_X => Some(Key::X),
        sys::OS_KEY_Y => Some(Key::Y),
        sys::OS_KEY_Z => Some(Key::Z),
        sys::OS_KEY_0 => Some(Key::Number0),
        sys::OS_KEY_1 => Some(Key::Number1),
        sys::OS_KEY_2 => Some(Key::Number2),
        sys::OS_KEY_3 => Some(Key::Number3),
        sys::OS_KEY_4 => Some(Key::Number4),
        sys::OS_KEY_5 => Some(Key::Number5),
        sys::OS_KEY_6 => Some(Key::Number6),
        sys::OS_KEY_7 => Some(Key::Number7),
        sys::OS_KEY_8 => Some(Key::Number8),
        sys::OS_KEY_9 => Some(Key::Number9),
        sys::OS_KEY_SPACE => Some(Key::Space),
        sys::OS_KEY_ENTER => Some(Key::Enter),
        sys::OS_KEY_TAB => Some(Key::Tab),
        sys::OS_KEY_ESCAPE => Some(Key::Escape),
        sys::OS_KEY_BACKSPACE => Some(Key::Backspace),
        sys::OS_KEY_UP => Some(Key::Up),
        sys::OS_KEY_DOWN => Some(Key::Down),
        sys::OS_KEY_LEFT => Some(Key::Left),
        sys::OS_KEY_RIGHT => Some(Key::Right),
        sys::OS_KEY_HOME => Some(Key::Home),
        sys::OS_KEY_END => Some(Key::End),
        sys::OS_KEY_PAGE_UP => Some(Key::PageUp),
        sys::OS_KEY_PAGE_DOWN => Some(Key::PageDown),
        sys::OS_KEY_INSERT => Some(Key::Insert),
        sys::OS_KEY_DELETE => Some(Key::Delete),
        sys::OS_KEY_F1 => Some(Key::F1),
        sys::OS_KEY_F2 => Some(Key::F2),
        sys::OS_KEY_F3 => Some(Key::F3),
        sys::OS_KEY_F4 => Some(Key::F4),
        sys::OS_KEY_F5 => Some(Key::F5),
        sys::OS_KEY_F6 => Some(Key::F6),
        sys::OS_KEY_F7 => Some(Key::F7),
        sys::OS_KEY_F8 => Some(Key::F8),
        sys::OS_KEY_F9 => Some(Key::F9),
        sys::OS_KEY_F10 => Some(Key::F10),
        sys::OS_KEY_F11 => Some(Key::F11),
        sys::OS_KEY_F12 => Some(Key::F12),
        sys::OS_KEY_BACKTICK => Some(Key::Backtick),
        sys::OS_KEY_MINUS => Some(Key::Minus),
        sys::OS_KEY_EQUALS => Some(Key::Equals),
        sys::OS_KEY_LEFT_BRACKET => Some(Key::LeftBracket),
        sys::OS_KEY_RIGHT_BRACKET => Some(Key::RightBracket),
        sys::OS_KEY_BACKSLASH => Some(Key::Backslash),
        sys::OS_KEY_SEMICOLON => Some(Key::Semicolon),
        sys::OS_KEY_APOSTROPHE => Some(Key::Apostrophe),
        sys::OS_KEY_COMMA => Some(Key::Comma),
        sys::OS_KEY_PERIOD => Some(Key::Period),
        sys::OS_KEY_SLASH => Some(Key::Slash),
        sys::OS_KEY_KP_0 => Some(Key::Kp0),
        sys::OS_KEY_KP_1 => Some(Key::Kp1),
        sys::OS_KEY_KP_2 => Some(Key::Kp2),
        sys::OS_KEY_KP_3 => Some(Key::Kp3),
        sys::OS_KEY_KP_4 => Some(Key::Kp4),
        sys::OS_KEY_KP_5 => Some(Key::Kp5),
        sys::OS_KEY_KP_6 => Some(Key::Kp6),
        sys::OS_KEY_KP_7 => Some(Key::Kp7),
        sys::OS_KEY_KP_8 => Some(Key::Kp8),
        sys::OS_KEY_KP_9 => Some(Key::Kp9),
        sys::OS_KEY_KP_DECIMAL => Some(Key::KpDecimal),
        sys::OS_KEY_KP_DIVIDE => Some(Key::KpDivide),
        sys::OS_KEY_KP_MULTIPLY => Some(Key::KpMultiply),
        sys::OS_KEY_KP_SUBTRACT => Some(Key::KpSubtract),
        sys::OS_KEY_KP_ADD => Some(Key::KpAdd),
        sys::OS_KEY_KP_ENTER => Some(Key::KpEnter),
        sys::OS_KEY_KP_EQUALS => Some(Key::KpEquals),
        sys::OS_KEY_LEFT_CONTROL => Some(Key::LeftControl),
        sys::OS_KEY_LEFT_SHIFT => Some(Key::LeftShift),
        sys::OS_KEY_LEFT_ALT => Some(Key::LeftAlt),
        sys::OS_KEY_LEFT_OS => Some(Key::LeftOs),
        sys::OS_KEY_RIGHT_CONTROL => Some(Key::RightControl),
        sys::OS_KEY_RIGHT_SHIFT => Some(Key::RightShift),
        sys::OS_KEY_RIGHT_ALT => Some(Key::RightAlt),
        sys::OS_KEY_RIGHT_OS => Some(Key::RightOs),
        sys::OS_KEY_CAPS_LOCK => Some(Key::CapsLock),
        sys::OS_KEY_SCROLL_LOCK => Some(Key::ScrollLock),
        sys::OS_KEY_NUM_LOCK => Some(Key::NumLock),
        _ => None,
    }
}

/// Which display an event is about.
#[derive(Clone, Copy, Debug, PartialEq, Eq, Structural)]
pub enum DisplayType {
    Headset,
    Window,
}

/// What happened to a watched file.
#[derive(Clone, Copy, Debug, PartialEq, Eq, Structural)]
pub enum FileAction {
    Create,
    Delete,
    Modify,
    Rename,
}

/// A permission that the application can be granted.
#[derive(Clone, Copy, Debug, PartialEq, Eq, Structural)]
pub enum Permission {
    AudioCapture,
}

/// The code of a display type in LÖVR's C interface.
pub open spec fn display_type_code(display: DisplayType) -> u32 {
    match display {
        DisplayType::Headset => sys::DISPLAY_HEADSET,
        DisplayType::Window => sys::DISPLAY_WINDOW,
    }
}

/// The code of a file action in LÖVR's C interface.
pub open spec fn file_action_code(action: FileAction) -> u32 {
    match action {
        FileAction::Create => sys::FILE_CREATE,
        FileAction::Delete => sys::FILE_DELETE,
        FileAction::Modify => sys::FILE_MODIFY,
        FileAction::Rename => sys::FILE_RENAME,
    }
}

/// The code of a permission in LÖVR's C interface.
pub open spec fn permission_code(permission: Permission) -> u32 {
    match permission {
        Permission::AudioCapture => sys::PERMISSION_AUDIO_CAPTURE,
    }
}

impl DisplayType {
    /// The display type with code `code`, if there is one.
    pub fn from_code(code: u32) -> (r: Option<DisplayType>)
        ensures
            r matches Some(display) ==> display_type_code(display) == code,
            r is None <==> code > sys::DISPLAY_WINDOW,
    {
        match code {
            sys::DISPLAY_HEADSET => Some(DisplayType::Headset),
            sys::DISPLAY_WINDOW => Some(DisplayType::Window),
            _ => None,
        }
    }
}

impl FileAction {
    /// The file action with code `code`, if there is one.
    pub fn from_code(code: u32) -> (r: Option<FileAction>)
        ensures
            r matches Some(action) ==> file_action_code(action) == code,
            r is None <==> code > sys::FILE_RENAME,
    {
        match code {
            sys::FILE_CREATE => Some(FileAction::Create),
            sys::FILE_DELETE => Some(FileAction::Delete),
            sys::FILE_MODIFY => Some(FileAction::Modify),
            sys::FILE_RENAME => Some(FileAction::Rename),
            _ => None,
        }
    }
}

impl Permission {
    /// The permission with code `code`, if there is one.
    pub fn from_code(code: u32) -> (r: Option<Permission>)
        ensures
            r matches Some(permission) ==> permission_code(permission) == code,
            r is None <==> code > sys::PERMISSION_AUDIO_CAPTURE,
    {
        match code {
            sys::PERMISSION_AUDIO_CAPTURE => Some(Permission::AudioCapture),
            _ => None,
        }
    }
}

/// The kinds of event that the run loop handles.
#[derive(Clone, Copy, Debug, PartialEq, Eq, Structural)]
pub enum EventType {
    Quit,
    Visible,
    Focus,
    Mount,
    Recenter,
    ModelsChanged,
    Resize,
    KeyPressed,
    KeyReleased,
    TextInput,
    MousePressed,
    MouseReleased,
    MouseMoved,
    MouseWheelMoved,
    ThreadError,
    FileChanged,
    Permission,
    Custom,
}

/// The code of an event type in LÖVR's C interface.
pub open spec fn event_type_code(kind: EventType) -> u32 {
    match kind {
        EventType::Quit => sys::EVENT_QUIT,
        EventType::Visible => sys::EVENT_VISIBLE,
        EventType::Focus => sys::EVENT_FOCUS,
        EventType::Mount => sys::EVENT_MOUNT,
        EventType::Recenter => sys::EVENT_RECENTER,
        EventType::ModelsChanged => sys::EVENT_MODELSCHANGED,
        EventType::Resize => sys::EVENT_RESIZE,
        EventType::KeyPressed => sys::EVENT_KEYPRESSED,
        EventType::KeyReleased => sys::EVENT_KEYRELEASED,
        EventType::TextInput => sys::EVENT_TEXTINPUT,
        EventType::MousePressed => sys::EVENT_MOUSEPRESSED,
        EventType::MouseReleased => sys::EVENT_MOUSERELEASED,
        EventType::MouseMoved => sys::EVENT_MOUSEMOVED,
        EventType::MouseWheelMoved => sys::EVENT_MOUSEWHEELMOVED,
        EventType::ThreadError => sys::EVENT_THREAD_ERROR,
        EventType::FileChanged => sys::EVENT_FILECHANGED,
        EventType::Permission => sys::EVENT_PERMISSION,
        EventType::Custom => sys::EVENT_CUSTOM,
    }
}

/// The kind of event with type code `code`; `None` for the codes that the
/// run loop does not handle (restart requests and codes beyond the last).
pub fn event_type_from_code(code: u32) -> (r: Option<EventType>)
    ensures
        r matches Some(kind) ==> event_type_code(kind) == code,
        r is None <==> (code == sys::EVENT_RESTART || code > sys::EVENT_CUSTOM),
{
    match code {
        sys::EVENT_QUIT => Some(EventType::Quit),
        sys::EVENT_VISIBLE => Some(EventType::Visible),
        sys::EVENT_FOCUS => Some(EventType::Focus),
        sys::EVENT_MOUNT => Some(EventType::Mount),
        sys::EVENT_RECENTER => Some(EventType::Recenter),
        sys::EVENT_MODELSCHANGED => Some(EventType::ModelsChanged),
        sys::EVENT_RESIZE => Some(EventType::Resize),
        sys::EVENT_KEYPRESSED => Some(EventType::KeyPressed),
        sys::EVENT_KEYRELEASED => Some(EventType::KeyReleased),
        sys::EVENT_TEXTINPUT => Some(EventType::TextInput),
        sys::EVENT_MOUSEPRESSED => Some(EventType::MousePressed),
        sys::EVENT_MOUSERELEASED => Some(EventType::MouseReleased),
        sys::EVENT_MOUSEMOVED => Some(EventType::MouseMoved),
        sys::EVENT_MOUSEWHEELMOVED => Some(EventType::MouseWheelMoved),
        sys::EVENT_THREAD_ERROR => Some(EventType::ThreadError),
        sys::EVENT_FILECHANGED => Some(EventType::FileChanged),
        sys::EVENT_PERMISSION => Some(EventType::Permission),
        sys::EVENT_CUSTOM => Some(EventType::Custom),
        _ => None,
    }
}

/// Distinct display types, file actions and event types have distinct codes.
pub proof fn lemma_event_codes_distinct(
    displays: (DisplayType, DisplayType),
    actions: (FileAction, FileAction),
    kinds: (EventType, EventType),
)
    ensures
        display_type_code(displays.0) == display_type_code(displays.1) ==> displays.0 == displays.1,
        file_action_code(actions.0) == file_action_code(actions.1) ==> actions.0 == actions.1,
        event_type_code(kinds.0) == event_type_code(kinds.1) ==> kinds.0 == kinds.1,
{
}

/// An event as the run loop hands it to the callbacks. Pointer positions
/// and movements have type `P`.
#[derive(Debug)]
pub enum Event<P> {
    Quit { exit_code: i32 },
    Visible { visible: bool, display: DisplayType },
    Focus { focused: bool, display: DisplayType },
    Mount { mounted: bool },
    Recenter,
    ModelsChanged,
    Resize { width: u32, height: u32 },
    KeyPressed { code: Key, scancode: u32, repeat: bool },
    KeyReleased { code: Key, scancode: u32 },
    TextInput { utf8: String, codepoint: u32 },
    MousePressed { x: P, y: P, button: i32 },
    MouseReleased { x: P, y: P, button: i32 },
    MouseMoved { x: P, y: P, dx: P, dy: P },
    MouseWheelMoved { x: P, y: P },
    ThreadError { error: String },
    FileChanged { path: String, action: FileAction, old_path: String },
    Permission { permission: Permission, granted: bool },
    Custom,
}

/// An event as it stands in LÖVR's queue: keys, displays, file actions and
/// permissions by their C codes, and typed text as the bytes of its
/// NUL-terminated buffer.
#[derive(Debug)]
pub enum RawEvent<P> {
    Quit { exit_code: i32 },
    Visible { visible: bool, display: u32 },
    Focus { focused: bool, display: u32 },
    Mount { mounted: bool },
    Recenter,
    ModelsChanged,
    Resize { width: u32, height: u32 },
    KeyPressed { code: u32, scancode: u32, repeat: bool },
    KeyReleased { code: u32, scancode: u32 },
    TextInput { utf8: Vec<u8>, codepoint: u32 },
    MousePressed { x: P, y: P, button: i32 },
    MouseReleased { x: P, y: P, button: i32 },
    MouseMoved { x: P, y: P, dx: P, dy: P },
    MouseWheelMoved { x: P, y: P },
    ThreadError { error: String },
    FileChanged { path: String, action: u32, old_path: String },
    Permission { permission: u32, granted: bool },
    Custom,
}

/// Whether every display, file action and permission code of `raw` names one.
pub open spec fn codes_known<P>(raw: RawEvent<P>) -> bool {
    match raw {
        RawEvent::Visible { display, .. } => display <= sys::DISPLAY_WINDOW,
        RawEvent::Focus { display, .. } => display <= sys::DISPLAY_WINDOW,
        RawEvent::FileChanged { action, .. } => action <= sys::FILE_RENAME,
        RawEvent::Permission { permission, .. } => permission <= sys::PERMISSION_AUDIO_CAPTURE,
        _ => true,
    }
}

/// The bytes of a C string buffer up to, not including, its first NUL byte
/// (all of them when there is none).
pub open spec fn c_string(bytes: Seq<u8>) -> Seq<u8>
    decreases bytes.len(),
{
    if bytes.len() == 0 || bytes[0] == 0 {
        Seq::empty()
    } else {
        seq![bytes[0]] + c_string(bytes.drop_first())
    }
}

/// The text in a C string buffer: the UTF-8 decoding of its bytes before the
/// first NUL, or the empty text when those bytes are not valid UTF-8.
pub open spec fn c_string_text(bytes: Seq<u8>) -> Seq<char> {
    if valid_utf8(c_string(bytes)) {
        decode_utf8(c_string(bytes))
    } else {
        Seq::empty()
    }
}

/// What a raw event decodes to: the same event with its codes resolved and
/// its text decoded, or `None` (skip it) for a key event whose key code
/// names no key.
pub open spec fn decodes_to<P>(raw: RawEvent<P>, event: Option<Event<P>>) -> bool {
    match raw {
        RawEvent::Quit { exit_code } => event == Some(Event::<P>::Quit { exit_code }),
        RawEvent::Visible { visible, display } => event matches Some(
            Event::Visible { visible: v, display: d },
        ) && v == visible && display_type_code(d) == display,
        RawEvent::Focus { focused, display } => event matches Some(
            Event::Focus { focused: f, display: d },
        ) && f == focused && display_type_code(d) == display,
        RawEvent::Mount { mounted } => event == Some(Event::<P>::Mount { mounted }),
        RawEvent::Recenter => event == Some(Event::<P>::Recenter),
        RawEvent::ModelsChanged => event == Some(Event::<P>::ModelsChanged),
        RawEvent::Resize { width, height } => event == Some(Event::<P>::Resize { width, height }),
        RawEvent::KeyPressed { code, scancode, repeat } => if code >= sys::OS_KEY_COUNT {
            event is None
        } else {
            event matches Some(Event::KeyPressed { code: k, scancode: s, repeat: r })
                && key_code(k) == code && s == scancode && r == repeat
        },
        RawEvent::KeyReleased { code, scancode } => if code >= sys::OS_KEY_COUNT {
            event is None
        } else {
            event matches Some(Event::KeyReleased { code: k, scancode: s }) && key_code(k)
                == code && s == scancode
        },
        RawEvent::TextInput { utf8, codepoint } => event matches Some(
            Event::TextInput { utf8: text, codepoint: c },
        ) && text@ == c_string_text(utf8@) && c == codepoint,
        RawEvent::MousePressed { x, y, button } => event == Some(
            Event::MousePressed { x, y, button },
        ),
        RawEvent::MouseReleased { x, y, button } => event == Some(
            Event::MouseReleased { x, y, button },
        ),
        RawEvent::MouseMoved { x, y, dx, dy } => event == Some(Event::MouseMoved { x, y, dx, dy }),
        RawEvent::MouseWheelMoved { x, y } => event == Some(Event::MouseWheelMoved { x, y }),
        RawEvent::ThreadError { error } => event == Some(Event::<P>::ThreadError { error }),
        RawEvent::FileChanged { path, action, old_path } => event matches Some(
            Event::FileChanged { path: p, action: a, old_path: o },
        ) && p == path && file_action_code(a) == action && o == old_path,
        RawEvent::Permission { permission, granted } => event matches Some(
            Event::Permission { permission: p, granted: g },
        ) && permission_code(p) == permission && g == granted,
        RawEvent::Custom => event == Some(Event::<P>::Custom),
    }
}

impl<P> RawEvent<P> {
    /// Whether every display, file action and permission code of the event
    /// names one.
    pub fn codes_known(&self) -> (r: bool)
        ensures
            r == codes_known(*self),
    {
        match self {
            RawEvent::Visible { display, .. } => *display <= sys::DISPLAY_WINDOW,
            RawEvent::Focus { display, .. } => *display <= sys::DISPLAY_WINDOW,
            RawEvent::FileChanged { action, .. } => *action <= sys::FILE_RENAME,
            RawEvent::Permission { permission, .. } => *permission
                <= sys::PERMISSION_AUDIO_CAPTURE,
            _ => true,
        }
    }
}

/// Proof that the bytes scanned so far, none of them NUL, begin the C string.
proof fn lemma_c_string_prefix(bytes: Seq<u8>, k: int)
    requires
        0 <= k <= bytes.len(),
        forall|j: int| 0 <= j < k ==> bytes[j] != 0,
    ensures
        c_string(bytes) == bytes.take(k) + c_string(bytes.skip(k)),
    decreases k,
{
    if k > 0 {
        lemma_c_string_prefix(bytes.drop_first(), k - 1);
        assert(bytes.drop_first().take(k - 1) == bytes.take(k).drop_first());
        assert(bytes.drop_first().skip(k - 1) == bytes.skip(k));
        assert(bytes.take(k) == seq![bytes[0]] + bytes.take(k).drop_first());
    } else {
        assert(bytes.skip(0) == bytes);
    }
}

/// The bytes of a C string buffer before its first NUL byte.
pub fn c_string_bytes(bytes: &[u8]) -> (r: Vec<u8>)
    ensures
        r@ == c_string(bytes@),
{
    let mut r: Vec<u8> = Vec::new();
    let mut k: usize = 0;
    while k < bytes.len() && bytes[k] != 0
        invariant
            k <= bytes@.len(),
            r@ == bytes@.take(k as int),
            forall|j: int| 0 <= j < k ==> bytes@[j] != 0,
        decreases bytes@.len() - k,
    {
        r.push(bytes[k]);
        k = k + 1;
        assert(r@ == bytes@.take(k as int));
    }
    proof {
        lemma_c_string_prefix(bytes@, k as int);
        assert(c_string(bytes@.skip(k as int)) == Seq::<u8>::empty());
    }
    r
}

/// `String::from_utf8`, made total: the string when `bytes` are valid UTF-8,
/// which std's documentation promises to return exactly then, holding the
/// characters they encode; `None` otherwise.
#[verifier::external_body]
fn string_from_utf8(bytes: Vec<u8>) -> (r: Option<String>)
    ensures
        r is Some <==> valid_utf8(bytes@),
        r matches Some(s) ==> s@ == decode_utf8(bytes@),
{
    String::from_utf8(bytes).ok()
}

/// The text in a C string buffer, or the empty text when its bytes before
/// the first NUL are not valid UTF-8.
pub fn c_string_to_text(bytes: &[u8]) -> (r: String)
    ensures
        r@ == c_string_text(bytes@),
{
    match string_from_utf8(c_string_bytes(bytes)) {
        Some(text) => text,
        None => String::new(),
    }
}

/// Resolves the codes of a raw event and decodes its text; `None` when the
/// event is a key event for a key code that names no key, which the run loop
/// skips.
pub fn decode_event<P>(raw: RawEvent<P>) -> (r: Option<Event<P>>)
    requires
        codes_known(raw),
    ensures
        decodes_to(raw, r),
{
    match raw {
        RawEvent::Quit { exit_code } => Some(Event::Quit { exit_code }),
        RawEvent::Visible { visible, display } => Some(
            Event::Visible { visible, display: DisplayType::from_code(display).unwrap() },
        ),
        RawEvent::Focus { focused, display } => Some(
            Event::Focus { focused, display: DisplayType::from_code(display).unwrap() },
        ),
        RawEvent::Mount { mounted } => Some(Event::Mount { mounted }),
        RawEvent::Recenter => Some(Event::Recenter),
        RawEvent::ModelsChanged => Some(Event::ModelsChanged),
        RawEvent::Resize { width, height } => Some(Event::Resize { width, height }),
        RawEvent::KeyPressed { code, scancode, repeat } => match keycode_to_key(code) {
            Some(key) => Some(Event::KeyPressed { code: key, scancode, repeat }),
            None => None,
        },
        RawEvent::KeyReleased { code, scancode } => match keycode_to_key(code) {
            Some(key) => Some(Event::KeyReleased { code: key, scancode }),
            None => None,
        },
        RawEvent::TextInput { utf8, codepoint } => Some(
            Event::TextInput { utf8: c_string_to_text(utf8.as_slice()), codepoint },
        ),
        RawEvent::MousePressed { x, y, button } => Some(Event::MousePressed { x, y, button }),
        RawEvent::MouseReleased { x, y, button } => Some(Event::MouseReleased { x, y, button }),
        RawEvent::MouseMoved { x, y, dx, dy } => Some(Event::MouseMoved { x, y, dx, dy }),
        RawEvent::MouseWheelMoved { x, y } => Some(Event::MouseWheelMoved { x, y }),
        RawEvent::ThreadError { error } => Some(Event::ThreadError { error }),
        RawEvent::FileChanged { path, action, old_path } => Some(
            Event::FileChanged { path, action: FileAction::from_code(action).unwrap(), old_path },
        ),
        RawEvent::Permission { permission, granted } => Some(
            Event::Permission { permission: Permission::from_code(permission).unwrap(), granted },
        ),
        RawEvent::Custom => Some(Event::Custom),
    }
}

/// Each key's code is LÖVR's constant named after that key.
pub proof fn lemma_key_codes_by_name()
    ensures
        key_code(Key::A) == sys::OS_KEY_A,
        key_code(Key::B) == sys::OS_KEY_B,
        key_code(Key::C) == sys::OS_KEY_C,
        key_code(Key::D) == sys::OS_KEY_D,
        key_code(Key::E) == sys::OS_KEY_E,
        key_code(Key::F) == sys::OS_KEY_F,
        key_code(Key::G) == sys::OS_KEY_G,
        key_code(Key::H) == sys::OS_KEY_H,
        key_code(Key::I) == sys::OS_KEY_I,
        key_code(Key::J) == sys::OS_KEY_J,
        key_code(Key::K) == sys::OS_KEY_K,
        key_code(Key::L) == sys::OS_KEY_L,
        key_code(Key::M) == sys::OS_KEY_M,
        key_code(Key::N) == sys::OS_KEY_N,
        key_code(Key::O) == sys::OS_KEY_O,
        key_code(Key::P) == sys::OS_KEY_P,
        key_code(Key::Q) == sys::OS_KEY_Q,
        key_code(Key::R) == sys::OS_KEY_R,
        key_code(Key::S) == sys::OS_KEY_S,
        key_code(Key::T) == sys::OS_KEY_T,
        key_code(Key::U) == sys::OS_KEY_U,
        key_code(Key::V) == sys::OS_KEY_V,
        key_code(Key::W) == sys::OS_KEY_W,
        key_code(Key::X) == sys::OS_KEY_X,
        key_code(Key::Y) == sys::OS_KEY_Y,
        key_code(Key::Z) == sys::OS_KEY_Z,
        key_code(Key::Number0) == sys::OS_KEY_0,
        key_code(Key::Number1) == sys::OS_KEY_1,
        key_code(Key::Number2) == sys::OS_KEY_2,
        key_code(Key::Number3) == sys::OS_KEY_3,
        key_code(Key::Number4) == sys::OS_KEY_4,
        key_code(Key::Number5) == sys::OS_KEY_5,
        key_code(Key::Number6) == sys::OS_KEY_6,
        key_code(Key::Number7) == sys::OS_KEY_7,
        key_code(Key::Number8) == sys::OS_KEY_8,
        key_code(Key::Number9) == sys::OS_KEY_9,
        key_code(Key::Space) == sys::OS_KEY_SPACE,
        key_code(Key::Enter) == sys::OS_KEY_ENTER,
        key_code(Key::Tab) == sys::OS_KEY_TAB,
        key_code(Key::Escape) == sys::OS_KEY_ESCAPE,
        key_code(Key::Backspace) == sys::OS_KEY_BACKSPACE,
        key_code(Key::Up) == sys::OS_KEY_UP,
        key_code(Key::Down) == sys::OS_KEY_DOWN,
        key_code(Key::Left) == sys::OS_KEY_LEFT,
        key_code(Key::Right) == sys::OS_KEY_RIGHT,
        key_code(Key::Home) == sys::OS_KEY_HOME,
        key_code(Key::End) == sys::OS_KEY_END,
        key_code(Key::PageUp) == sys::OS_KEY_PAGE_UP,
        key_code(Key::PageDown) == sys::OS_KEY_PAGE_DOWN,
        key_code(Key::Insert) == sys::OS_KEY_INSERT,
        key_code(Key::Delete) == sys::OS_KEY_DELETE,
        key_code(Key::F1) == sys::OS_KEY_F1,
        key_code(Key::F2) == sys::OS_KEY_F2,
        key_code(Key::F3) == sys::OS_KEY_F3,
        key_code(Key::F4) == sys::OS_KEY_F4,
        key_code(Key::F5) == sys::OS_KEY_F5,
        key_code(Key::F6) == sys::OS_KEY_F6,
        key_code(Key::F7) == sys::OS_KEY_F7,
        key_code(Key::F8) == sys::OS_KEY_F8,
        key_code(Key::F9) == sys::OS_KEY_F9,
        key_code(Key::F10) == sys::OS_KEY_F10,
        key_code(Key::F11) == sys::OS_KEY_F11,
        key_code(Key::F12) == sys::OS_KEY_F12,
        key_code(Key::Backtick) == sys::OS_KEY_BACKTICK,
        key_code(Key::Minus) == sys::OS_KEY_MINUS,
        key_code(Key::Equals) == sys::OS_KEY_EQUALS,
        key_code(Key::LeftBracket) == sys::OS_KEY_LEFT_BRACKET,
        key_code(Key::RightBracket) == sys::OS_KEY_RIGHT_BRACKET,
        key_code(Key::Backslash) == sys::OS_KEY_BACKSLASH,
        key_code(Key::Semicolon) == sys::OS_KEY_SEMICOLON,
        key_code(Key::Apostrophe) == sys::OS_KEY_APOSTROPHE,
        key_code(Key::Comma) == sys::OS_KEY_COMMA,
        key_code(Key::Period) == sys::OS_KEY_PERIOD,
        key_code(Key::Slash) == sys::OS_KEY_SLASH,
        key_code(Key::Kp0) == sys::OS_KEY_KP_0,
        key_code(Key::Kp1) == sys::OS_KEY_KP_1,
        key_code(Key::Kp2) == sys::OS_KEY_KP_2,
        key_code(Key::Kp3) == sys::OS_KEY_KP_3,
        key_code(Key::Kp4) == sys::OS_KEY_KP_4,
        key_code(Key::Kp5) == sys::OS_KEY_KP_5,
        key_code(Key::Kp6) == sys::OS_KEY_KP_6,
        key_code(Key::Kp7) == sys::OS_KEY_KP_7,
        key_code(Key::Kp8) == sys::OS_KEY_KP_8,
        key_code(Key::Kp9) == sys::OS_KEY_KP_9,
        key_code(Key::KpDecimal) == sys::OS_KEY_KP_DECIMAL,
        key_code(Key::KpDivide) == sys::OS_KEY_KP_DIVIDE,
        key_code(Key::KpMultiply) == sys::OS_KEY_KP_MULTIPLY,
        key_code(Key::KpSubtract) == sys::OS_KEY_KP_SUBTRACT,
        key_code(Key::KpAdd) == sys::OS_KEY_KP_ADD,
        key_code(Key::KpEnter) == sys::OS_KEY_KP_ENTER,
        key_code(Key::KpEquals) == sys::OS_KEY_KP_EQUALS,
        key_code(Key::LeftControl) == sys::OS_KEY_LEFT_CONTROL,
        key_code(Key::LeftShift) == sys::OS_KEY_LEFT_SHIFT,
        key_code(Key::LeftAlt) == sys::OS_KEY_LEFT_ALT,
        key_code(Key::LeftOs) == sys::OS_KEY_LEFT_OS,
        key_code(Key::RightControl) == sys::OS_KEY_RIGHT_CONTROL,
        key_code(Key::RightShift) == sys::OS_KEY_RIGHT_SHIFT,
        key_code(Key::RightAlt) == sys::OS_KEY_RIGHT_ALT,
        key_code(Key::RightOs) == sys::OS_KEY_RIGHT_OS,
        key_code(Key::CapsLock) == sys::OS_KEY_CAPS_LOCK,
        key_code(Key::ScrollLock) == sys::OS_KEY_SCROLL_LOCK,
        key_code(Key::NumLock) == sys::OS_KEY_NUM_LOCK,
{
}

/// Each kind of event has LÖVR's event type constant named after it, and
/// each display, file action and permission has the constant named after it.
pub proof fn lemma_event_codes_by_name()
    ensures
        event_type_code(EventType::Quit) == sys::EVENT_QUIT,
        event_type_code(EventType::Visible) == sys::EVENT_VISIBLE,
        event_type_code(EventType::Focus) == sys::EVENT_FOCUS,
        event_type_code(EventType::Mount) == sys::EVENT_MOUNT,
        event_type_code(EventType::Recenter) == sys::EVENT_RECENTER,
        event_type_code(EventType::ModelsChanged) == sys::EVENT_MODELSCHANGED,
        event_type_code(EventType::Resize) == sys::EVENT_RESIZE,
        event_type_code(EventType::KeyPressed) == sys::EVENT_KEYPRESSED,
        event_type_code(EventType::KeyReleased) == sys::EVENT_KEYRELEASED,
        event_type_code(EventType::TextInput) == sys::EVENT_TEXTINPUT,
        event_type_code(EventType::MousePressed) == sys::EVENT_MOUSEPRESSED,
        event_type_code(EventType::MouseReleased) == sys::EVENT_MOUSERELEASED,
        event_type_code(EventType::MouseMoved) == sys::EVENT_MOUSEMOVED,
        event_type_code(EventType::MouseWheelMoved) == sys::EVENT_MOUSEWHEELMOVED,
        event_type_code(EventType::ThreadError) == sys::EVENT_THREAD_ERROR,
        event_type_code(EventType::FileChanged) == sys::EVENT_FILECHANGED,
        event_type_code(EventType::Permission) == sys::EVENT_PERMISSION,
        event_type_code(EventType::Custom) == sys::EVENT_CUSTOM,
        display_type_code(DisplayType::Headset) == sys::DISPLAY_HEADSET,
        display_type_code(DisplayType::Window) == sys::DISPLAY_WINDOW,
        file_action_code(FileAction::Create) == sys::FILE_CREATE,
        file_action_code(FileAction::Delete) == sys::FILE_DELETE,
        file_action_code(FileAction::Modify) == sys::FILE_MODIFY,
        file_action_code(FileAction::Rename) == sys::FILE_RENAME,
        permission_code(Permission::AudioCapture) == sys::PERMISSION_AUDIO_CAPTURE,
{
}

/// The kind of a raw event: the variant of the same name.
pub open spec fn raw_event_kind<P>(raw: RawEvent<P>) -> EventType {
    match raw {
        RawEvent::Quit { .. } => EventType::Quit,
        RawEvent::Visible { .. } => EventType::Visible,
        RawEvent::Focus { .. } => EventType::Focus,
        RawEvent::Mount { .. } => EventType::Mount,
        RawEvent::Recenter { .. } => EventType::Recenter,
        RawEvent::ModelsChanged { .. } => EventType::ModelsChanged,
        RawEvent::Resize { .. } => EventType::Resize,
        RawEvent::KeyPressed { .. } => EventType::KeyPressed,
        RawEvent::KeyReleased { .. } => EventType::KeyReleased,
        RawEvent::TextInput { .. } => EventType::TextInput,
        RawEvent::MousePressed { .. } => EventType::MousePressed,
        RawEvent::MouseReleased { .. } => EventType::MouseReleased,
        RawEvent::MouseMoved { .. } => EventType::MouseMoved,
        RawEvent::MouseWheelMoved { .. } => EventType::MouseWheelMoved,
        RawEvent::ThreadError { .. } => EventType::ThreadError,
        RawEvent::FileChanged { .. } => EventType::FileChanged,
        RawEvent::Permission { .. } => EventType::Permission,
        RawEvent::Custom { .. } => EventType::Custom,
    }
}

/// The kind of an event: the variant of the same name.
pub open spec fn event_kind<P>(event: Event<P>) -> EventType {
    match event {
        Event::Quit { .. } => EventType::Quit,
        Event::Visible { .. } => EventType::Visible,
        Event::Focus { .. } => EventType::Focus,
        Event::Mount { .. } => EventType::Mount,
        Event::Recenter { .. } => EventType::Recenter,
        Event::ModelsChanged { .. } => EventType::ModelsChanged,
        Event::Resize { .. } => EventType::Resize,
        Event::KeyPressed { .. } => EventType::KeyPressed,
        Event::KeyReleased { .. } => EventType::KeyReleased,
        Event::TextInput { .. } => EventType::TextInput,
        Event::MousePressed { .. } => EventType::MousePressed,
        Event::MouseReleased { .. } => EventType::MouseReleased,
        Event::MouseMoved { .. } => EventType::MouseMoved,
        Event::MouseWheelMoved { .. } => EventType::MouseWheelMoved,
        Event::ThreadError { .. } => EventType::ThreadError,
        Event::FileChanged { .. } => EventType::FileChanged,
        Event::Permission { .. } => EventType::Permission,
        Event::Custom { .. } => EventType::Custom,
    }
}

/// Decoding keeps the kind of an event: a raw event decodes to the event
/// variant of the same name, and only a key event can be skipped.
pub proof fn lemma_decode_keeps_kind<P>(raw: RawEvent<P>, event: Option<Event<P>>)
    requires
        decodes_to(raw, event),
    ensures
        event matches Some(e) ==> event_kind(e) == raw_event_kind(raw),
        event is None ==> raw_event_kind(raw) == EventType::KeyPressed || raw_event_kind(raw)
            == EventType::KeyReleased,
{
}

/// Pointer events pass through decoding unchanged: the same variant with
/// the same positions, movements and button.
pub proof fn lemma_pointer_events_pass_through<P>(raw: RawEvent<P>, event: Option<Event<P>>)
    requires
        decodes_to(raw, event),
    ensures
        raw matches RawEvent::MousePressed { x, y, button } ==> event == Some(
            Event::MousePressed { x, y, button },
        ),
        raw matches RawEvent::MouseReleased { x, y, button } ==> event == Some(
            Event::MouseReleased { x, y, button },
        ),
        raw matches RawEvent::MouseMoved { x, y, dx, dy } ==> event == Some(
            Event::MouseMoved { x, y, dx, dy },
        ),
        raw matches RawEvent::MouseWheelMoved { x, y } ==> event == Some(
            Event::MouseWheelMoved { x, y },
        ),
{
}

/// A key event decodes to the key whose code it carries: it is skipped
/// exactly when no key has that code.
pub proof fn lemma_key_events_name_their_key<P>(raw: RawEvent<P>, event: Option<Event<P>>)
    requires
        decodes_to(raw, event),
    ensures
        raw matches RawEvent::KeyPressed { code, scancode, repeat } ==> (event is None <==> !exists|
            k: Key,
        | key_code(k) == code) && (forall|k: Key|
            key_code(k) == code ==> event == Some(
                Event::<P>::KeyPressed { code: k, scancode, repeat },
            )),
        raw matches RawEvent::KeyReleased { code, scancode } ==> (event is None <==> !exists|
            k: Key,
        | key_code(k) == code) && (forall|k: Key|
            key_code(k) == code ==> event == Some(Event::<P>::KeyReleased { code: k, scancode })),
{
    match raw {
        RawEvent::KeyPressed { code, .. } | RawEvent::KeyReleased { code, .. } => {
            if code < sys::OS_KEY_COUNT {
                match event {
                    Some(Event::KeyPressed { code: k0, .. }) | Some(
                        Event::KeyReleased { code: k0, .. },
                    ) => {
                        assert forall|k: Key| key_code(k) == code implies k == k0 by {
                            lemma_key_codes_distinct(k, k0);
                        }
                    },
                    _ => {},
                }
            } else {
                assert forall|k: Key| key_code(k) != code by {
                    lemma_key_codes_distinct(k, k);
                }
            }
        },
        _ => {},
    }
}

/// The C string of a buffer is exactly its bytes before the first NUL.
pub proof fn lemma_c_string_is_prefix(bytes: Seq<u8>, k: int)
    requires
        0 <= k <= bytes.len(),
        forall|j: int| 0 <= j < k ==> bytes[j] != 0,
        k == bytes.len() || bytes[k] == 0,
    ensures
        c_string(bytes) == bytes.take(k),
{
    lemma_c_string_prefix(bytes, k);
    assert(c_string(bytes.skip(k)) == Seq::<u8>::empty());
    assert(bytes.take(k) + Seq::<u8>::empty() == bytes.take(k));
}

/// The text of a buffer is the UTF-8 decoding of its bytes before the first
/// NUL, whatever their number, when they are valid UTF-8; otherwise it is
/// empty.
pub proof fn lemma_text_is_utf8_of_c_string(bytes: Seq<u8>)
    ensures
        valid_utf8(c_string(bytes)) ==> c_string_text(bytes) == decode_utf8(c_string(bytes)),
        !valid_utf8(c_string(bytes)) ==> c_string_text(bytes) == Seq::<char>::empty(),
{
}

/// A raw event's codes are known exactly when each names a display, file
/// action or permission; events without such codes are always known.
pub proof fn lemma_codes_known_iff_named<P>(raw: RawEvent<P>)
    ensures
        raw matches RawEvent::Visible { display, .. } ==> (codes_known(raw) <==> exists|
            d: DisplayType,
        | display_type_code(d) == display),
        raw matches RawEvent::Focus { display, .. } ==> (codes_known(raw) <==> exists|
            d: DisplayType,
        | display_type_code(d) == display),
        raw matches RawEvent::FileChanged { action, .. } ==> (codes_known(raw) <==> exists|
            a: FileAction,
        | file_action_code(a) == action),
        raw matches RawEvent::Permission { permission, .. } ==> (codes_known(raw) <==> exists|
            p: Permission,
        | permission_code(p) == permission),
        !(raw is Visible || raw is Focus || raw is FileChanged || raw is Permission)
            ==> codes_known(raw),
{
    match raw {
        RawEvent::Visible { display, .. } | RawEvent::Focus { display, .. } => {
            if display == sys::DISPLAY_HEADSET {
                assert(display_type_code(DisplayType::Headset) == display);
            } else if display == sys::DISPLAY_WINDOW {
                assert(display_type_code(DisplayType::Window) == display);
            }
        },
        RawEvent::FileChanged { action, .. } => {
            if action == sys::FILE_CREATE {
                assert(file_action_code(FileAction::Create) == action);
            } else if action == sys::FILE_DELETE {
                assert(file_action_code(FileAction::Delete) == action);
            } else if action == sys::FILE_MODIFY {
                assert(file_action_code(FileAction::Modify) == action);
            } else if action == sys::FILE_RENAME {
                assert(file_action_code(FileAction::Rename) == action);
            }
        },
        RawEvent::Permission { permission, .. } => {
            if permission == sys::PERMISSION_AUDIO_CAPTURE {
                assert(permission_code(Permission::AudioCapture) == permission);
            }
        },
        _ => {},
    }
}

/// Decoding keeps every value that needs no resolving, and resolves each
/// code to the display, file action or permission that has it.
pub proof fn lemma_fields_pass_through<P>(raw: RawEvent<P>, event: Option<Event<P>>)
    requires
        decodes_to(raw, event),
    ensures
        raw matches RawEvent::Quit { exit_code } ==> event == Some(Event::<P>::Quit { exit_code }),
        raw matches RawEvent::Visible { visible, display } ==> event matches Some(
            Event::Visible { visible: v, display: d },
        ) && v == visible && display_type_code(d) == display,
        raw matches RawEvent::Focus { focused, display } ==> event matches Some(
            Event::Focus { focused: f, display: d },
        ) && f == focused && display_type_code(d) == display,
        raw matches RawEvent::Mount { mounted } ==> event == Some(Event::<P>::Mount { mounted }),
        raw matches RawEvent::Resize { width, height } ==> event == Some(
            Event::<P>::Resize { width, height },
        ),
        raw matches RawEvent::KeyPressed { scancode, repeat, .. } ==> event is None || (
        event matches Some(Event::KeyPressed { scancode: s, repeat: r, .. }) && s == scancode
            && r == repeat),
        raw matches RawEvent::KeyReleased { scancode, .. } ==> event is None || (event matches Some(
            Event::KeyReleased { scancode: s, .. },
        ) && s == scancode),
        raw matches RawEvent::TextInput { codepoint, utf8 } ==> event matches Some(
            Event::TextInput { codepoint: c, utf8: text },
        ) && c == codepoint && text@ == c_string_text(utf8@),
        raw matches RawEvent::ThreadError { error } ==> event == Some(
            Event::<P>::ThreadError { error },
        ),
        raw matches RawEvent::FileChanged { path, action, old_path } ==> event matches Some(
            Event::FileChanged { path: p, action: a, old_path: o },
        ) && p == path && o == old_path && file_action_code(a) == action,
        raw matches RawEvent::Permission { permission, granted } ==> event matches Some(
            Event::Permission { permission: p, granted: g },
        ) && g == granted && permission_code(p) == permission,
        raw is Recenter ==> event == Some(Event::<P>::Recenter),
        raw is ModelsChanged ==> event == Some(Event::<P>::ModelsChanged),
        raw is Custom ==> event == Some(Event::<P>::Custom),
{
}

} // verus!
