use sandlot::event::EventType;

#[test]
fn event_type_codes() {
    assert_eq!(EventType::Quit.to_sdl(), 0x100);
    assert_eq!(EventType::Terminating.to_sdl(), 0x101);
    assert_eq!(EventType::DisplayOrientationChanged.to_sdl(), 0x151);
    assert_eq!(EventType::KeyDown.to_sdl(), 0x300);
    assert_eq!(EventType::TextEditingCandidates.to_sdl(), 0x307);
    assert_eq!(EventType::GamepadSteamHandleUpdated.to_sdl(), 0x65b);
    assert_eq!(EventType::RenderDeviceLost.to_sdl(), 0x2002);
}

#[test]
fn event_type_from_code() {
    assert_eq!(EventType::from_sdl(0x100), Some(EventType::Quit));
    assert_eq!(EventType::from_sdl(0x2002), Some(EventType::RenderDeviceLost));
    assert_eq!(EventType::from_sdl(0), None);
    assert_eq!(EventType::from_sdl(0x8000), None);
    for k in [EventType::MouseMotion, EventType::DropFile, EventType::PenAxis, EventType::CameraDeviceDenied] {
        assert_eq!(EventType::from_sdl(k.to_sdl()), Some(k));
    }
}
