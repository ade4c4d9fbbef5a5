//! The kinds of event SDL delivers, with SDL's number for each.

use vstd::prelude::*;

verus! {

/// The kind of an event: the variant of `Event` and the tag of SDL's event union.
///
/// The values are those of `SDL_EventType`.
#[derive(Clone, Copy, Debug, PartialEq, Eq, Hash, Structural)]
pub enum EventType {
    /// User-requested quit.
    Quit,
    /// The application is being terminated by the OS. This event must be handled in a callback set with `SDL_AddEventWatch()`.
    Terminating,
    /// The application is low on memory, free memory if possible. This event must be handled in a callback set with `SDL_AddEventWatch()`.
    LowMemory,
    /// The application is about to enter the background. This event must be handled in a callback set with `SDL_AddEventWatch()`.
    WillEnterBackground,
    /// The application did enter the background and may not get CPU for some time. This event must be handled in a callback set with `SDL_AddEventWatch()`.
    DidEnterBackground,
    /// The application is about to enter the foreground. This event must be handled in a callback set with `SDL_AddEventWatch()`.
    WillEnterForeground,
    /// The application is now interactive. This event must be handled in a callback set with SDL_AddEventWatch().
    DidEnterForeground,
    /// The user's locale preferences have changed.
    LocaleChanged,
    /// The system theme changed.
    SystemThemeChanged,
    /// Display orientation has changed to data1.
    DisplayOrientationChanged,
    /// Display has been added to the system.
    DisplayAdded,
    /// Display has been removed from the system.
    DisplayRemoved,
    /// Display has changed position.
    DisplayMoved,
    /// Display has changed desktop mode.
    DisplayDesktopModeChanged,
    /// Display has changed current mode.
    DisplayCurrentModeChanged,
    /// Display has changed content scale.
    DisplayContentScaleChanged,
    /// Window has been shown.
    WindowShown,
    /// Window has been hidden.
    WindowHidden,
    /// Window has been exposed and should be redrawn, and can be redrawn.
    WindowExposed,
    /// Window has been moved to data1, data2.
    WindowMoved,
    /// Window has been resized to data1xdata2.
    WindowResized,
    /// The pixel size of the window has changed to data1xdata2.
    WindowPixelSizeChanged,
    /// The pixel size of a Metal view associated with the window has changed.
    WindowMetalViewResized,
    /// Window has been minimized.
    WindowMinimized,
    /// Window has been maximized.
    WindowMaximized,
    /// Window has been restored to normal size and position.
    WindowRestored,
    /// Window has gained mouse focus.
    WindowMouseEnter,
    /// Window has lost mouse focus.
    WindowMouseLeave,
    /// Window has gained keyboard focus.
    WindowFocusGained,
    /// Window has lost keyboard focus.
    WindowFocusLost,
    /// The window manager requests that the window be closed.
    WindowCloseRequested,
    /// Window had a hit test that wasn't SDL_HITTEST_NORMAL.
    WindowHitTest,
    /// The ICC profile of the window's display has changed.
    WindowIccProfileChanged,
    /// Window has been moved to display data1.
    WindowDisplayChanged,
    /// Window display scale has been changed.
    WindowDisplayScaleChanged,
    /// The window safe area has been changed.
    WindowSafeAreaChanged,
    /// The window has been occluded.
    WindowOccluded,
    /// The window has entered fullscreen mode.
    WindowEnteredFullscreen,
    /// The window has left fullscreen mode.
    WindowLeftFullscreen,
    /// The window with the associated ID is being or has been destroyed. If this message is being handled.
    WindowDestroyed,
    /// Window HDR properties have changed.
    WindowHdrStateChanged,
    /// Key pressed.
    KeyDown,
    /// Key released.
    KeyUp,
    /// Keyboard text editing (composition).
    TextEditing,
    /// Keyboard text input.
    TextInput,
    /// Keymap changed due to a system event such as an input language or keyboard layout change.
    KeymapChanged,
    /// A new keyboard has been inserted into the system.
    KeyboardAdded,
    /// A keyboard has been removed.
    KeyboardRemoved,
    /// Keyboard text editing candidates.
    TextEditingCandidates,
    /// Mouse moved.
    MouseMotion,
    /// Mouse button pressed.
    MouseButtonDown,
    /// Mouse button released.
    MouseButtonUp,
    /// Mouse wheel motion.
    MouseWheelMotion,
    /// A new mouse has been inserted into the system.
    MouseAdded,
    /// A mouse has been removed.
    MouseRemoved,
    /// Joystick axis motion.
    JoyAxisMotion,
    /// Joystick trackball motion.
    JoyBallMotion,
    /// Joystick hat position change.
    JoyHatMotion,
    /// Joystick button pressed.
    JoyButtonDown,
    /// Joystick button released.
    JoyButtonUp,
    /// A new joystick has been inserted into the system.
    JoyAdded,
    /// An opened joystick has been removed.
    JoyRemoved,
    /// Joystick battery level change.
    JoyBatteryUpdate,
    /// Joystick update is complete.
    JoyUpdateComplete,
    /// Gamepad axis motion.
    GamepadAxisMotion,
    /// Gamepad button pressed.
    GamepadButtonDown,
    /// Gamepad button released.
    GamepadButtonUp,
    /// A new gamepad has been inserted into the system.
    GamepadAdded,
    /// A gamepad has been removed.
    GamepadRemoved,
    /// The gamepad mapping was updated.
    GamepadRemapped,
    /// Gamepad touchpad was touched.
    GamepadTouchpadDown,
    /// Gamepad touchpad finger was moved.
    GamepadTouchpadMotion,
    /// Gamepad touchpad finger was lifted.
    GamepadTouchpadUp,
    /// Gamepad sensor was updated.
    GamepadSensorUpdate,
    /// Gamepad update is complete.
    GamepadUpdateComplete,
    /// Gamepad Steam handle has changed.
    GamepadSteamHandleUpdated,
    FingerDown,
    FingerUp,
    FingerMotion,
    FingerCancelled,
    /// The clipboard or primary selection changed.
    ClipboardUpdate,
    /// The system requests a file open.
    DropFile,
    /// text/plain drag-and-drop event.
    DropText,
    /// A new set of drops is beginning (NULL filename).
    DropBegin,
    /// Current set of drops is now complete (NULL filename).
    DropComplete,
    /// Position while moving over the window.
    DropPosition,
    /// A new audio device is available.
    AudioDeviceAdded,
    /// An audio device has been removed.
    AudioDeviceRemoved,
    /// An audio device's format has been changed by the system.
    AudioDeviceFormatChanged,
    /// A sensor was updated.
    SensorUpdate,
    /// Pressure-sensitive pen has become available.
    PenProximityIn,
    /// Pressure-sensitive pen has become unavailable.
    PenProximityOut,
    /// Pressure-sensitive pen touched drawing surface.
    PenDown,
    /// Pressure-sensitive pen stopped touching drawing surface.
    PenUp,
    /// Pressure-sensitive pen button pressed.
    PenButtonDown,
    /// Pressure-sensitive pen button released.
    PenButtonUp,
    /// Pressure-sensitive pen is moving on the tablet.
    PenMotion,
    /// Pressure-sensitive pen angle/pressure/etc changed.
    PenAxis,
    /// A new camera device is available.
    CameraDeviceAdded,
    /// A camera device has been removed.
    CameraDeviceRemoved,
    /// A camera device has been approved for use by the user.
    CameraDeviceApproved,
    /// A camera device has been denied for use by the user.
    CameraDeviceDenied,
    /// The render targets have been reset and their contents need to be updated.
    RenderTargetsReset,
    /// The device has been reset and all textures need to be recreated.
    RenderDeviceReset,
    /// The device has been lost and can't be recovered.
    RenderDeviceLost,
}

impl EventType {
    /// The SDL code of this value.
    pub open spec fn code(self) -> u32 {
        match self {
            EventType::Quit => 0x100u32,
            EventType::Terminating => 0x101u32,
            EventType::LowMemory => 0x102u32,
            EventType::WillEnterBackground => 0x103u32,
            EventType::DidEnterBackground => 0x104u32,
            EventType::WillEnterForeground => 0x105u32,
            EventType::DidEnterForeground => 0x106u32,
            EventType::LocaleChanged => 0x107u32,
            EventType::SystemThemeChanged => 0x108u32,
            EventType::DisplayOrientationChanged => 0x151u32,
            EventType::DisplayAdded => 0x152u32,
            EventType::DisplayRemoved => 0x153u32,
            EventType::DisplayMoved => 0x154u32,
            EventType::DisplayDesktopModeChanged => 0x155u32,
            EventType::DisplayCurrentModeChanged => 0x156u32,
            EventType::DisplayContentScaleChanged => 0x157u32,
            EventType::WindowShown => 0x202u32,
            EventType::WindowHidden => 0x203u32,
            EventType::WindowExposed => 0x204u32,
            EventType::WindowMoved => 0x205u32,
            EventType::WindowResized => 0x206u32,
            EventType::WindowPixelSizeChanged => 0x207u32,
            EventType::WindowMetalViewResized => 0x208u32,
            EventType::WindowMinimized => 0x209u32,
            EventType::WindowMaximized => 0x20au32,
            EventType::WindowRestored => 0x20bu32,
            EventType::WindowMouseEnter => 0x20cu32,
            EventType::WindowMouseLeave => 0x20du32,
            EventType::WindowFocusGained => 0x20eu32,
            EventType::WindowFocusLost => 0x20fu32,
            EventType::WindowCloseRequested => 0x210u32,
            EventType::WindowHitTest => 0x211u32,
            EventType::WindowIccProfileChanged => 0x212u32,
            EventType::WindowDisplayChanged => 0x213u32,
            EventType::WindowDisplayScaleChanged => 0x214u32,
            EventType::WindowSafeAreaChanged => 0x215u32,
            EventType::WindowOccluded => 0x216u32,
            EventType::WindowEnteredFullscreen => 0x217u32,
            EventType::WindowLeftFullscreen => 0x218u32,
            EventType::WindowDestroyed => 0x219u32,
            EventType::WindowHdrStateChanged => 0x21au32,
            EventType::KeyDown => 0x300u32,
            EventType::KeyUp => 0x301u32,
            EventType::TextEditing => 0x302u32,
            EventType::TextInput => 0x303u32,
            EventType::KeymapChanged => 0x304u32,
            EventType::KeyboardAdded => 0x305u32,
            EventType::KeyboardRemoved => 0x306u32,
            EventType::TextEditingCandidates => 0x307u32,
            EventType::MouseMotion => 0x400u32,
            EventType::MouseButtonDown => 0x401u32,
            EventType::MouseButtonUp => 0x402u32,
            EventType::MouseWheelMotion => 0x403u32,
            EventType::MouseAdded => 0x404u32,
            EventType::MouseRemoved => 0x405u32,
            EventType::JoyAxisMotion => 0x600u32,
            EventType::JoyBallMotion => 0x601u32,
            EventType::JoyHatMotion => 0x602u32,
            EventType::JoyButtonDown => 0x603u32,
            EventType::JoyButtonUp => 0x604u32,
            EventType::JoyAdded => 0x605u32,
            EventType::JoyRemoved => 0x606u32,
            EventType::JoyBatteryUpdate => 0x607u32,
            EventType::JoyUpdateComplete => 0x608u32,
            EventType::GamepadAxisMotion => 0x650u32,
            EventType::GamepadButtonDown => 0x651u32,
            EventType::GamepadButtonUp => 0x652u32,
            EventType::GamepadAdded => 0x653u32,
            EventType::GamepadRemoved => 0x654u32,
            EventType::GamepadRemapped => 0x655u32,
            EventType::GamepadTouchpadDown => 0x656u32,
            EventType::GamepadTouchpadMotion => 0x657u32,
            EventType::GamepadTouchpadUp => 0x658u32,
            EventType::GamepadSensorUpdate => 0x659u32,
            EventType::GamepadUpdateComplete => 0x65au32,
            EventType::GamepadSteamHandleUpdated => 0x65bu32,
            EventType::FingerDown => 0x700u32,
            EventType::FingerUp => 0x701u32,
            EventType::FingerMotion => 0x702u32,
            EventType::FingerCancelled => 0x703u32,
            EventType::ClipboardUpdate => 0x900u32,
            EventType::DropFile => 0x1000u32,
            EventType::DropText => 0x1001u32,
            EventType::DropBegin => 0x1002u32,
            EventType::DropComplete => 0x1003u32,
            EventType::DropPosition => 0x1004u32,
            EventType::AudioDeviceAdded => 0x1100u32,
            EventType::AudioDeviceRemoved => 0x1101u32,
            EventType::AudioDeviceFormatChanged => 0x1102u32,
            EventType::SensorUpdate => 0x1200u32,
            EventType::PenProximityIn => 0x1300u32,
            EventType::PenProximityOut => 0x1301u32,
            EventType::PenDown => 0x1302u32,
            EventType::PenUp => 0x1303u32,
            EventType::PenButtonDown => 0x1304u32,
            EventType::PenButtonUp => 0x1305u32,
            EventType::PenMotion => 0x1306u32,
            EventType::PenAxis => 0x1307u32,
            EventType::CameraDeviceAdded => 0x1400u32,
            EventType::CameraDeviceRemoved => 0x1401u32,
            EventType::CameraDeviceApproved => 0x1402u32,
            EventType::CameraDeviceDenied => 0x1403u32,
            EventType::RenderTargetsReset => 0x2000u32,
            EventType::RenderDeviceReset => 0x2001u32,
            EventType::RenderDeviceLost => 0x2002u32,
        }
    }

    /// The value whose SDL code is `code`, if any.
    pub open spec fn from_code(code: u32) -> Option<EventType> {
        if code == 0x100u32 {
            Some(EventType::Quit)
        } else if code == 0x101u32 {
            Some(EventType::Terminating)
        } else if code == 0x102u32 {
            Some(EventType::LowMemory)
        } else if code == 0x103u32 {
            Some(EventType::WillEnterBackground)
        } else if code == 0x104u32 {
            Some(EventType::DidEnterBackground)
        } else if code == 0x105u32 {
            Some(EventType::WillEnterForeground)
        } else if code == 0x106u32 {
            Some(EventType::DidEnterForeground)
        } else if code == 0x107u32 {
            Some(EventType::LocaleChanged)
        } else if code == 0x108u32 {
            Some(EventType::SystemThemeChanged)
        } else if code == 0x151u32 {
            Some(EventType::DisplayOrientationChanged)
        } else if code == 0x152u32 {
            Some(EventType::DisplayAdded)
        } else if code == 0x153u32 {
            Some(EventType::DisplayRemoved)
        } else if code == 0x154u32 {
            Some(EventType::DisplayMoved)
        } else if code == 0x155u32 {
            Some(EventType::DisplayDesktopModeChanged)
        } else if code == 0x156u32 {
            Some(EventType::DisplayCurrentModeChanged)
        } else if code == 0x157u32 {
            Some(EventType::DisplayContentScaleChanged)
        } else if code == 0x202u32 {
            Some(EventType::WindowShown)
        } else if code == 0x203u32 {
            Some(EventType::WindowHidden)
        } else if code == 0x204u32 {
            Some(EventType::WindowExposed)
        } else if code == 0x205u32 {
            Some(EventType::WindowMoved)
        } else if code == 0x206u32 {
            Some(EventType::WindowResized)
        } else if code == 0x207u32 {
            Some(EventType::WindowPixelSizeChanged)
        } else if code == 0x208u32 {
            Some(EventType::WindowMetalViewResized)
        } else if code == 0x209u32 {
            Some(EventType::WindowMinimized)
        } else if code == 0x20au32 {
            Some(EventType::WindowMaximized)
        } else if code == 0x20bu32 {
            Some(EventType::WindowRestored)
        } else if code == 0x20cu32 {
            Some(EventType::WindowMouseEnter)
        } else if code == 0x20du32 {
            Some(EventType::WindowMouseLeave)
        } else if code == 0x20eu32 {
            Some(EventType::WindowFocusGained)
        } else if code == 0x20fu32 {
            Some(EventType::WindowFocusLost)
        } else if code == 0x210u32 {
            Some(EventType::WindowCloseRequested)
        } else if code == 0x211u32 {
            Some(EventType::WindowHitTest)
        } else if code == 0x212u32 {
            Some(EventType::WindowIccProfileChanged)
        } else if code == 0x213u32 {
            Some(EventType::WindowDisplayChanged)
        } else if code == 0x214u32 {
            Some(EventType::WindowDisplayScaleChanged)
        } else if code == 0x215u32 {
            Some(EventType::WindowSafeAreaChanged)
        } else if code == 0x216u32 {
            Some(EventType::WindowOccluded)
        } else if code == 0x217u32 {
            Some(EventType::WindowEnteredFullscreen)
        } else if code == 0x218u32 {
            Some(EventType::WindowLeftFullscreen)
        } else if code == 0x219u32 {
            Some(EventType::WindowDestroyed)
        } else if code == 0x21au32 {
            Some(EventType::WindowHdrStateChanged)
        } else if code == 0x300u32 {
            Some(EventType::KeyDown)
        } else if code == 0x301u32 {
            Some(EventType::KeyUp)
        } else if code == 0x302u32 {
            Some(EventType::TextEditing)
        } else if code == 0x303u32 {
            Some(EventType::TextInput)
        } else if code == 0x304u32 {
            Some(EventType::KeymapChanged)
        } else if code == 0x305u32 {
            Some(EventType::KeyboardAdded)
        } else if code == 0x306u32 {
            Some(EventType::KeyboardRemoved)
        } else if code == 0x307u32 {
            Some(EventType::TextEditingCandidates)
        } else if code == 0x400u32 {
            Some(EventType::MouseMotion)
        } else if code == 0x401u32 {
            Some(EventType::MouseButtonDown)
        } else if code == 0x402u32 {
            Some(EventType::MouseButtonUp)
        } else if code == 0x403u32 {
            Some(EventType::MouseWheelMotion)
        } else if code == 0x404u32 {
            Some(EventType::MouseAdded)
        } else if code == 0x405u32 {
            Some(EventType::MouseRemoved)
        } else if code == 0x600u32 {
            Some(EventType::JoyAxisMotion)
        } else if code == 0x601u32 {
            Some(EventType::JoyBallMotion)
        } else if code == 0x602u32 {
            Some(EventType::JoyHatMotion)
        } else if code == 0x603u32 {
            Some(EventType::JoyButtonDown)
        } else if code == 0x604u32 {
            Some(EventType::JoyButtonUp)
        } else if code == 0x605u32 {
            Some(EventType::JoyAdded)
        } else if code == 0x606u32 {
            Some(EventType::JoyRemoved)
        } else if code == 0x607u32 {
            Some(EventType::JoyBatteryUpdate)
        } else if code == 0x608u32 {
            Some(EventType::JoyUpdateComplete)
        } else if code == 0x650u32 {
            Some(EventType::GamepadAxisMotion)
        } else if code == 0x651u32 {
            Some(EventType::GamepadButtonDown)
        } else if code == 0x652u32 {
            Some(EventType::GamepadButtonUp)
        } else if code == 0x653u32 {
            Some(EventType::GamepadAdded)
        } else if code == 0x654u32 {
            Some(EventType::GamepadRemoved)
        } else if code == 0x655u32 {
            Some(EventType::GamepadRemapped)
        } else if code == 0x656u32 {
            Some(EventType::GamepadTouchpadDown)
        } else if code == 0x657u32 {
            Some(EventType::GamepadTouchpadMotion)
        } else if code == 0x658u32 {
            Some(EventType::GamepadTouchpadUp)
        } else if code == 0x659u32 {
            Some(EventType::GamepadSensorUpdate)
        } else if code == 0x65au32 {
            Some(EventType::GamepadUpdateComplete)
        } else if code == 0x65bu32 {
            Some(EventType::GamepadSteamHandleUpdated)
        } else if code == 0x700u32 {
            Some(EventType::FingerDown)
        } else if code == 0x701u32 {
            Some(EventType::FingerUp)
        } else if code == 0x702u32 {
            Some(EventType::FingerMotion)
        } else if code == 0x703u32 {
            Some(EventType::FingerCancelled)
        } else if code == 0x900u32 {
            Some(EventType::ClipboardUpdate)
        } else if code == 0x1000u32 {
            Some(EventType::DropFile)
        } else if code == 0x1001u32 {
            Some(EventType::DropText)
        } else if code == 0x1002u32 {
            Some(EventType::DropBegin)
        } else if code == 0x1003u32 {
            Some(EventType::DropComplete)
        } else if code == 0x1004u32 {
            Some(EventType::DropPosition)
        } else if code == 0x1100u32 {
            Some(EventType::AudioDeviceAdded)
        } else if code == 0x1101u32 {
            Some(EventType::AudioDeviceRemoved)
        } else if code == 0x1102u32 {
            Some(EventType::AudioDeviceFormatChanged)
        } else if code == 0x1200u32 {
            Some(EventType::SensorUpdate)
        } else if code == 0x1300u32 {
            Some(EventType::PenProximityIn)
        } else if code == 0x1301u32 {
            Some(EventType::PenProximityOut)
        } else if code == 0x1302u32 {
            Some(EventType::PenDown)
        } else if code == 0x1303u32 {
            Some(EventType::PenUp)
        } else if code == 0x1304u32 {
            Some(EventType::PenButtonDown)
        } else if code == 0x1305u32 {
            Some(EventType::PenButtonUp)
        } else if code == 0x1306u32 {
            Some(EventType::PenMotion)
        } else if code == 0x1307u32 {
            Some(EventType::PenAxis)
        } else if code == 0x1400u32 {
            Some(EventType::CameraDeviceAdded)
        } else if code == 0x1401u32 {
            Some(EventType::CameraDeviceRemoved)
        } else if code == 0x1402u32 {
            Some(EventType::CameraDeviceApproved)
        } else if code == 0x1403u32 {
            Some(EventType::CameraDeviceDenied)
        } else if code == 0x2000u32 {
            Some(EventType::RenderTargetsReset)
        } else if code == 0x2001u32 {
            Some(EventType::RenderDeviceReset)
        } else if code == 0x2002u32 {
            Some(EventType::RenderDeviceLost)
        } else {
            None
        }
    }

    /// The SDL code of this value.
    pub fn to_sdl(self) -> (c: u32)
        ensures
            c == self.code(),
    {
        match self {
            EventType::Quit => 0x100u32,
            EventType::Terminating => 0x101u32,
            EventType::LowMemory => 0x102u32,
            EventType::WillEnterBackground => 0x103u32,
            EventType::DidEnterBackground => 0x104u32,
            EventType::WillEnterForeground => 0x105u32,
            EventType::DidEnterForeground => 0x106u32,
            EventType::LocaleChanged => 0x107u32,
            EventType::SystemThemeChanged => 0x108u32,
            EventType::DisplayOrientationChanged => 0x151u32,
            EventType::DisplayAdded => 0x152u32,
            EventType::DisplayRemoved => 0x153u32,
            EventType::DisplayMoved => 0x154u32,
            EventType::DisplayDesktopModeChanged => 0x155u32,
            EventType::DisplayCurrentModeChanged => 0x156u32,
            EventType::DisplayContentScaleChanged => 0x157u32,
            EventType::WindowShown => 0x202u32,
            EventType::WindowHidden => 0x203u32,
            EventType::WindowExposed => 0x204u32,
            EventType::WindowMoved => 0x205u32,
            EventType::WindowResized => 0x206u32,
            EventType::WindowPixelSizeChanged => 0x207u32,
            EventType::WindowMetalViewResized => 0x208u32,
            EventType::WindowMinimized => 0x209u32,
            EventType::WindowMaximized => 0x20au32,
            EventType::WindowRestored => 0x20bu32,
            EventType::WindowMouseEnter => 0x20cu32,
            EventType::WindowMouseLeave => 0x20du32,
            EventType::WindowFocusGained => 0x20eu32,
            EventType::WindowFocusLost => 0x20fu32,
            EventType::WindowCloseRequested => 0x210u32,
            EventType::WindowHitTest => 0x211u32,
            EventType::WindowIccProfileChanged => 0x212u32,
            EventType::WindowDisplayChanged => 0x213u32,
            EventType::WindowDisplayScaleChanged => 0x214u32,
            EventType::WindowSafeAreaChanged => 0x215u32,
            EventType::WindowOccluded => 0x216u32,
            EventType::WindowEnteredFullscreen => 0x217u32,
            EventType::WindowLeftFullscreen => 0x218u32,
            EventType::WindowDestroyed => 0x219u32,
            EventType::WindowHdrStateChanged => 0x21au32,
            EventType::KeyDown => 0x300u32,
            EventType::KeyUp => 0x301u32,
            EventType::TextEditing => 0x302u32,
            EventType::TextInput => 0x303u32,
            EventType::KeymapChanged => 0x304u32,
            EventType::KeyboardAdded => 0x305u32,
            EventType::KeyboardRemoved => 0x306u32,
            EventType::TextEditingCandidates => 0x307u32,
            EventType::MouseMotion => 0x400u32,
            EventType::MouseButtonDown => 0x401u32,
            EventType::MouseButtonUp => 0x402u32,
            EventType::MouseWheelMotion => 0x403u32,
            EventType::MouseAdded => 0x404u32,
            EventType::MouseRemoved => 0x405u32,
            EventType::JoyAxisMotion => 0x600u32,
            EventType::JoyBallMotion => 0x601u32,
            EventType::JoyHatMotion => 0x602u32,
            EventType::JoyButtonDown => 0x603u32,
            EventType::JoyButtonUp => 0x604u32,
            EventType::JoyAdded => 0x605u32,
            EventType::JoyRemoved => 0x606u32,
            EventType::JoyBatteryUpdate => 0x607u32,
            EventType::JoyUpdateComplete => 0x608u32,
            EventType::GamepadAxisMotion => 0x650u32,
            EventType::GamepadButtonDown => 0x651u32,
            EventType::GamepadButtonUp => 0x652u32,
            EventType::GamepadAdded => 0x653u32,
            EventType::GamepadRemoved => 0x654u32,
            EventType::GamepadRemapped => 0x655u32,
            EventType::GamepadTouchpadDown => 0x656u32,
            EventType::GamepadTouchpadMotion => 0x657u32,
            EventType::GamepadTouchpadUp => 0x658u32,
            EventType::GamepadSensorUpdate => 0x659u32,
            EventType::GamepadUpdateComplete => 0x65au32,
            EventType::GamepadSteamHandleUpdated => 0x65bu32,
            EventType::FingerDown => 0x700u32,
            EventType::FingerUp => 0x701u32,
            EventType::FingerMotion => 0x702u32,
            EventType::FingerCancelled => 0x703u32,
            EventType::ClipboardUpdate => 0x900u32,
            EventType::DropFile => 0x1000u32,
            EventType::DropText => 0x1001u32,
            EventType::DropBegin => 0x1002u32,
            EventType::DropComplete => 0x1003u32,
            EventType::DropPosition => 0x1004u32,
            EventType::AudioDeviceAdded => 0x1100u32,
            EventType::AudioDeviceRemoved => 0x1101u32,
            EventType::AudioDeviceFormatChanged => 0x1102u32,
            EventType::SensorUpdate => 0x1200u32,
            EventType::PenProximityIn => 0x1300u32,
            EventType::PenProximityOut => 0x1301u32,
            EventType::PenDown => 0x1302u32,
            EventType::PenUp => 0x1303u32,
            EventType::PenButtonDown => 0x1304u32,
            EventType::PenButtonUp => 0x1305u32,
            EventType::PenMotion => 0x1306u32,
            EventType::PenAxis => 0x1307u32,
            EventType::CameraDeviceAdded => 0x1400u32,
            EventType::CameraDeviceRemoved => 0x1401u32,
            EventType::CameraDeviceApproved => 0x1402u32,
            EventType::CameraDeviceDenied => 0x1403u32,
            EventType::RenderTargetsReset => 0x2000u32,
            EventType::RenderDeviceReset => 0x2001u32,
            EventType::RenderDeviceLost => 0x2002u32,
        }
    }

    /// The value whose SDL code is `code`; `None` for a code that names
    /// no value of this type.
    pub fn from_sdl(code: u32) -> (r: Option<Self>)
        ensures
            r == Self::from_code(code),
    {
        if code == 0x100u32 {
            Some(EventType::Quit)
        } else if code == 0x101u32 {
            Some(EventType::Terminating)
        } else if code == 0x102u32 {
            Some(EventType::LowMemory)
        } else if code == 0x103u32 {
            Some(EventType::WillEnterBackground)
        } else if code == 0x104u32 {
            Some(EventType::DidEnterBackground)
        } else if code == 0x105u32 {
            Some(EventType::WillEnterForeground)
        } else if code == 0x106u32 {
            Some(EventType::DidEnterForeground)
        } else if code == 0x107u32 {
            Some(EventType::LocaleChanged)
        } else if code == 0x108u32 {
            Some(EventType::SystemThemeChanged)
        } else if code == 0x151u32 {
            Some(EventType::DisplayOrientationChanged)
        } else if code == 0x152u32 {
            Some(EventType::DisplayAdded)
        } else if code == 0x153u32 {
            Some(EventType::DisplayRemoved)
        } else if code == 0x154u32 {
            Some(EventType::DisplayMoved)
        } else if code == 0x155u32 {
            Some(EventType::DisplayDesktopModeChanged)
        } else if code == 0x156u32 {
            Some(EventType::DisplayCurrentModeChanged)
        } else if code == 0x157u32 {
            Some(EventType::DisplayContentScaleChanged)
        } else if code == 0x202u32 {
            Some(EventType::WindowShown)
        } else if code == 0x203u32 {
            Some(EventType::WindowHidden)
        } else if code == 0x204u32 {
            Some(EventType::WindowExposed)
        } else if code == 0x205u32 {
            Some(EventType::WindowMoved)
        } else if code == 0x206u32 {
            Some(EventType::WindowResized)
        } else if code == 0x207u32 {
            Some(EventType::WindowPixelSizeChanged)
        } else if code == 0x208u32 {
            Some(EventType::WindowMetalViewResized)
        } else if code == 0x209u32 {
            Some(EventType::WindowMinimized)
        } else if code == 0x20au32 {
            Some(EventType::WindowMaximized)
        } else if code == 0x20bu32 {
            Some(EventType::WindowRestored)
        } else if code == 0x20cu32 {
            Some(EventType::WindowMouseEnter)
        } else if code == 0x20du32 {
            Some(EventType::WindowMouseLeave)
        } else if code == 0x20eu32 {
            Some(EventType::WindowFocusGained)
        } else if code == 0x20fu32 {
            Some(EventType::WindowFocusLost)
        } else if code == 0x210u32 {
            Some(EventType::WindowCloseRequested)
        } else if code == 0x211u32 {
            Some(EventType::WindowHitTest)
        } else if code == 0x212u32 {
            Some(EventType::WindowIccProfileChanged)
        } else if code == 0x213u32 {
            Some(EventType::WindowDisplayChanged)
        } else if code == 0x214u32 {
            Some(EventType::WindowDisplayScaleChanged)
        } else if code == 0x215u32 {
            Some(EventType::WindowSafeAreaChanged)
        } else if code == 0x216u32 {
            Some(EventType::WindowOccluded)
        } else if code == 0x217u32 {
            Some(EventType::WindowEnteredFullscreen)
        } else if code == 0x218u32 {
            Some(EventType::WindowLeftFullscreen)
        } else if code == 0x219u32 {
            Some(EventType::WindowDestroyed)
        } else if code == 0x21au32 {
            Some(EventType::WindowHdrStateChanged)
        } else if code == 0x300u32 {
            Some(EventType::KeyDown)
        } else if code == 0x301u32 {
            Some(EventType::KeyUp)
        } else if code == 0x302u32 {
            Some(EventType::TextEditing)
        } else if code == 0x303u32 {
            Some(EventType::TextInput)
        } else if code == 0x304u32 {
            Some(EventType::KeymapChanged)
        } else if code == 0x305u32 {
            Some(EventType::KeyboardAdded)
        } else if code == 0x306u32 {
            Some(EventType::KeyboardRemoved)
        } else if code == 0x307u32 {
            Some(EventType::TextEditingCandidates)
        } else if code == 0x400u32 {
            Some(EventType::MouseMotion)
        } else if code == 0x401u32 {
            Some(EventType::MouseButtonDown)
        } else if code == 0x402u32 {
            Some(EventType::MouseButtonUp)
        } else if code == 0x403u32 {
            Some(EventType::MouseWheelMotion)
        } else if code == 0x404u32 {
            Some(EventType::MouseAdded)
        } else if code == 0x405u32 {
            Some(EventType::MouseRemoved)
        } else if code == 0x600u32 {
            Some(EventType::JoyAxisMotion)
        } else if code == 0x601u32 {
            Some(EventType::JoyBallMotion)
        } else if code == 0x602u32 {
            Some(EventType::JoyHatMotion)
        } else if code == 0x603u32 {
            Some(EventType::JoyButtonDown)
        } else if code == 0x604u32 {
            Some(EventType::JoyButtonUp)
        } else if code == 0x605u32 {
            Some(EventType::JoyAdded)
        } else if code == 0x606u32 {
            Some(EventType::JoyRemoved)
        } else if code == 0x607u32 {
            Some(EventType::JoyBatteryUpdate)
        } else if code == 0x608u32 {
            Some(EventType::JoyUpdateComplete)
        } else if code == 0x650u32 {
            Some(EventType::GamepadAxisMotion)
        } else if code == 0x651u32 {
            Some(EventType::GamepadButtonDown)
        } else if code == 0x652u32 {
            Some(EventType::GamepadButtonUp)
        } else if code == 0x653u32 {
            Some(EventType::GamepadAdded)
        } else if code == 0x654u32 {
            Some(EventType::GamepadRemoved)
        } else if code == 0x655u32 {
            Some(EventType::GamepadRemapped)
        } else if code == 0x656u32 {
            Some(EventType::GamepadTouchpadDown)
        } else if code == 0x657u32 {
            Some(EventType::GamepadTouchpadMotion)
        } else if code == 0x658u32 {
            Some(EventType::GamepadTouchpadUp)
        } else if code == 0x659u32 {
            Some(EventType::GamepadSensorUpdate)
        } else if code == 0x65au32 {
            Some(EventType::GamepadUpdateComplete)
        } else if code == 0x65bu32 {
            Some(EventType::GamepadSteamHandleUpdated)
        } else if code == 0x700u32 {
            Some(EventType::FingerDown)
        } else if code == 0x701u32 {
            Some(EventType::FingerUp)
        } else if code == 0x702u32 {
            Some(EventType::FingerMotion)
        } else if code == 0x703u32 {
            Some(EventType::FingerCancelled)
        } else if code == 0x900u32 {
            Some(EventType::ClipboardUpdate)
        } else if code == 0x1000u32 {
            Some(EventType::DropFile)
        } else if code == 0x1001u32 {
            Some(EventType::DropText)
        } else if code == 0x1002u32 {
            Some(EventType::DropBegin)
        } else if code == 0x1003u32 {
            Some(EventType::DropComplete)
        } else if code == 0x1004u32 {
            Some(EventType::DropPosition)
        } else if code == 0x1100u32 {
            Some(EventType::AudioDeviceAdded)
        } else if code == 0x1101u32 {
            Some(EventType::AudioDeviceRemoved)
        } else if code == 0x1102u32 {
            Some(EventType::AudioDeviceFormatChanged)
        } else if code == 0x1200u32 {
            Some(EventType::SensorUpdate)
        } else if code == 0x1300u32 {
            Some(EventType::PenProximityIn)
        } else if code == 0x1301u32 {
            Some(EventType::PenProximityOut)
        } else if code == 0x1302u32 {
            Some(EventType::PenDown)
        } else if code == 0x1303u32 {
            Some(EventType::PenUp)
        } else if code == 0x1304u32 {
            Some(EventType::PenButtonDown)
        } else if code == 0x1305u32 {
            Some(EventType::PenButtonUp)
        } else if code == 0x1306u32 {
            Some(EventType::PenMotion)
        } else if code == 0x1307u32 {
            Some(EventType::PenAxis)
        } else if code == 0x1400u32 {
            Some(EventType::CameraDeviceAdded)
        } else if code == 0x1401u32 {
            Some(EventType::CameraDeviceRemoved)
        } else if code == 0x1402u32 {
            Some(EventType::CameraDeviceApproved)
        } else if code == 0x1403u32 {
            Some(EventType::CameraDeviceDenied)
        } else if code == 0x2000u32 {
            Some(EventType::RenderTargetsReset)
        } else if code == 0x2001u32 {
            Some(EventType::RenderDeviceReset)
        } else if code == 0x2002u32 {
            Some(EventType::RenderDeviceLost)
        } else {
            None
        }
    }
}

/// Every EventType has its own SDL code: the code of a value reads back as
/// that value, and a code that reads back as a value is that value's code.
pub proof fn lemma_event_type_code_roundtrip(v: EventType, code: u32)
    ensures
        EventType::from_code(v.code()) == Some(v),
        EventType::from_code(code) == Some(v) ==> v.code() == code,
{
}

/// The code of each EventType is the number SDL's headers give the `SDL_EventType`
/// constant of the same name, value by value.
pub proof fn lemma_event_type_sdl_codes()
    ensures
        EventType::Quit.code() == 0x100u32,
        EventType::Terminating.code() == 0x101u32,
        EventType::LowMemory.code() == 0x102u32,
        EventType::WillEnterBackground.code() == 0x103u32,
        EventType::DidEnterBackground.code() == 0x104u32,
        EventType::WillEnterForeground.code() == 0x105u32,
        EventType::DidEnterForeground.code() == 0x106u32,
        EventType::LocaleChanged.code() == 0x107u32,
        EventType::SystemThemeChanged.code() == 0x108u32,
        EventType::DisplayOrientationChanged.code() == 0x151u32,
        EventType::DisplayAdded.code() == 0x152u32,
        EventType::DisplayRemoved.code() == 0x153u32,
        EventType::DisplayMoved.code() == 0x154u32,
        EventType::DisplayDesktopModeChanged.code() == 0x155u32,
        EventType::DisplayCurrentModeChanged.code() == 0x156u32,
        EventType::DisplayContentScaleChanged.code() == 0x157u32,
        EventType::WindowShown.code() == 0x202u32,
        EventType::WindowHidden.code() == 0x203u32,
        EventType::WindowExposed.code() == 0x204u32,
        EventType::WindowMoved.code() == 0x205u32,
        EventType::WindowResized.code() == 0x206u32,
        EventType::WindowPixelSizeChanged.code() == 0x207u32,
        EventType::WindowMetalViewResized.code() == 0x208u32,
        EventType::WindowMinimized.code() == 0x209u32,
        EventType::WindowMaximized.code() == 0x20au32,
        EventType::WindowRestored.code() == 0x20bu32,
        EventType::WindowMouseEnter.code() == 0x20cu32,
        EventType::WindowMouseLeave.code() == 0x20du32,
        EventType::WindowFocusGained.code() == 0x20eu32,
        EventType::WindowFocusLost.code() == 0x20fu32,
        EventType::WindowCloseRequested.code() == 0x210u32,
        EventType::WindowHitTest.code() == 0x211u32,
        EventType::WindowIccProfileChanged.code() == 0x212u32,
        EventType::WindowDisplayChanged.code() == 0x213u32,
        EventType::WindowDisplayScaleChanged.code() == 0x214u32,
        EventType::WindowSafeAreaChanged.code() == 0x215u32,
        EventType::WindowOccluded.code() == 0x216u32,
        EventType::WindowEnteredFullscreen.code() == 0x217u32,
        EventType::WindowLeftFullscreen.code() == 0x218u32,
        EventType::WindowDestroyed.code() == 0x219u32,
        EventType::WindowHdrStateChanged.code() == 0x21au32,
        EventType::KeyDown.code() == 0x300u32,
        EventType::KeyUp.code() == 0x301u32,
        EventType::TextEditing.code() == 0x302u32,
        EventType::TextInput.code() == 0x303u32,
        EventType::KeymapChanged.code() == 0x304u32,
        EventType::KeyboardAdded.code() == 0x305u32,
        EventType::KeyboardRemoved.code() == 0x306u32,
        EventType::TextEditingCandidates.code() == 0x307u32,
        EventType::MouseMotion.code() == 0x400u32,
        EventType::MouseButtonDown.code() == 0x401u32,
        EventType::MouseButtonUp.code() == 0x402u32,
        EventType::MouseWheelMotion.code() == 0x403u32,
        EventType::MouseAdded.code() == 0x404u32,
        EventType::MouseRemoved.code() == 0x405u32,
        EventType::JoyAxisMotion.code() == 0x600u32,
        EventType::JoyBallMotion.code() == 0x601u32,
        EventType::JoyHatMotion.code() == 0x602u32,
        EventType::JoyButtonDown.code() == 0x603u32,
        EventType::JoyButtonUp.code() == 0x604u32,
        EventType::JoyAdded.code() == 0x605u32,
        EventType::JoyRemoved.code() == 0x606u32,
        EventType::JoyBatteryUpdate.code() == 0x607u32,
        EventType::JoyUpdateComplete.code() == 0x608u32,
        EventType::GamepadAxisMotion.code() == 0x650u32,
        EventType::GamepadButtonDown.code() == 0x651u32,
        EventType::GamepadButtonUp.code() == 0x652u32,
        EventType::GamepadAdded.code() == 0x653u32,
        EventType::GamepadRemoved.code() == 0x654u32,
        EventType::GamepadRemapped.code() == 0x655u32,
        EventType::GamepadTouchpadDown.code() == 0x656u32,
        EventType::GamepadTouchpadMotion.code() == 0x657u32,
        EventType::GamepadTouchpadUp.code() == 0x658u32,
        EventType::GamepadSensorUpdate.code() == 0x659u32,
        EventType::GamepadUpdateComplete.code() == 0x65au32,
        EventType::GamepadSteamHandleUpdated.code() == 0x65bu32,
        EventType::FingerDown.code() == 0x700u32,
        EventType::FingerUp.code() == 0x701u32,
        EventType::FingerMotion.code() == 0x702u32,
        EventType::FingerCancelled.code() == 0x703u32,
        EventType::ClipboardUpdate.code() == 0x900u32,
        EventType::DropFile.code() == 0x1000u32,
        EventType::DropText.code() == 0x1001u32,
        EventType::DropBegin.code() == 0x1002u32,
        EventType::DropComplete.code() == 0x1003u32,
        EventType::DropPosition.code() == 0x1004u32,
        EventType::AudioDeviceAdded.code() == 0x1100u32,
        EventType::AudioDeviceRemoved.code() == 0x1101u32,
        EventType::AudioDeviceFormatChanged.code() == 0x1102u32,
        EventType::SensorUpdate.code() == 0x1200u32,
        EventType::PenProximityIn.code() == 0x1300u32,
        EventType::PenProximityOut.code() == 0x1301u32,
        EventType::PenDown.code() == 0x1302u32,
        EventType::PenUp.code() == 0x1303u32,
        EventType::PenButtonDown.code() == 0x1304u32,
        EventType::PenButtonUp.code() == 0x1305u32,
        EventType::PenMotion.code() == 0x1306u32,
        EventType::PenAxis.code() == 0x1307u32,
        EventType::CameraDeviceAdded.code() == 0x1400u32,
        EventType::CameraDeviceRemoved.code() == 0x1401u32,
        EventType::CameraDeviceApproved.code() == 0x1402u32,
        EventType::CameraDeviceDenied.code() == 0x1403u32,
        EventType::RenderTargetsReset.code() == 0x2000u32,
        EventType::RenderDeviceReset.code() == 0x2001u32,
        EventType::RenderDeviceLost.code() == 0x2002u32,
{
}

/// A release has its own event type, numbered just after its press (a
/// touchpad release comes after the press and the motion between them),
/// so a press is never read as a release: key, mouse button, joystick
/// button, gamepad button, finger, pen and pen button.
pub proof fn lemma_event_type_release_follows_press()
    ensures
        EventType::KeyUp.code() == EventType::KeyDown.code() + 1,
        EventType::MouseButtonUp.code() == EventType::MouseButtonDown.code() + 1,
        EventType::JoyButtonUp.code() == EventType::JoyButtonDown.code() + 1,
        EventType::GamepadButtonUp.code() == EventType::GamepadButtonDown.code() + 1,
        EventType::FingerUp.code() == EventType::FingerDown.code() + 1,
        EventType::PenUp.code() == EventType::PenDown.code() + 1,
        EventType::PenButtonUp.code() == EventType::PenButtonDown.code() + 1,
        EventType::GamepadTouchpadUp.code() == EventType::GamepadTouchpadDown.code() + 2,
{
}

} // verus!
