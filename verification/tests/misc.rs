use sandlot::display::{kmsdrm_panel_orientation_from_raw, Display, DisplayOrientation};
use sandlot::fs::{EnumerationResult, Folder, GlobFlags, PathInfo, PathType};
use sandlot::init::AppKind;
use sandlot::keyboard::KeyboardState;
use sandlot::log::{Category, Priority};
use sandlot::msgbox::{show_flags, ButtonLayout, Severity};

#[test]
fn message_box_flags_combine_both_choices() {
    assert_eq!(show_flags(Severity::Error, ButtonLayout::LeftToRight), 0x90);
    assert_eq!(show_flags(Severity::Warning, ButtonLayout::RightToLeft), 0x120);
    assert_eq!(show_flags(Severity::Info, ButtonLayout::LeftToRight), 0xc0);
}

#[test]
fn log_codes() {
    assert_eq!(Priority::Trace.to_sdl(), 1);
    assert_eq!(Priority::Critical.to_sdl(), 7);
    assert_eq!(Priority::from_sdl(0), None);
    assert_eq!(Category::Gpu.to_sdl(), 9);
    assert_eq!(Category::from_sdl(0), Some(Category::Application));
    assert_eq!(Category::from_sdl(19), None);
}

#[test]
fn filesystem_values() {
    assert_eq!(PathType::default(), PathType::Missing);
    assert_eq!(PathType::Directory.to_sdl(), 2);
    assert_eq!(Folder::Videos.to_sdl(), 10);
    assert_eq!(Folder::from_sdl(11), None);
    assert_eq!(EnumerationResult::from_sdl(2), Some(EnumerationResult::Failure));
    assert!(GlobFlags::all().contains(GlobFlags::case_insensitive()));
    assert_eq!(GlobFlags::case_insensitive().bits(), 1);
    let info = PathInfo { path_type: PathType::File, size: 12, create_time: 1, modify_time: 2, access_time: 3 };
    assert_eq!(info.path_type, PathType::File);
}

#[test]
fn display_orientation_codes() {
    assert_eq!(DisplayOrientation::from_sdl(0), None);
    assert_eq!(DisplayOrientation::from_sdl(1), Some(DisplayOrientation::Landscape));
    assert_eq!(DisplayOrientation::from_sdl(3), Some(DisplayOrientation::Portrait));
    assert_eq!(DisplayOrientation::PortraitFlipped.to_sdl(), 4);
    assert_eq!(DisplayOrientation::from_sdl(5), None);
}

#[test]
fn display_ids() {
    assert!(Display::from_sdl(0).is_none());
    assert_eq!(Display::from_sdl(7).map(|d| d.id()), Some(7));
    assert_eq!(Display::new(5).id(), 5);
}

#[test]
fn panel_orientation_sentinel() {
    assert_eq!(kmsdrm_panel_orientation_from_raw(i64::MAX), None);
    assert_eq!(kmsdrm_panel_orientation_from_raw(0), Some(0));
    assert_eq!(kmsdrm_panel_orientation_from_raw(-90), Some(-90));
}

#[test]
fn app_kind_text() {
    assert_eq!(AppKind::from_sdl(b"game"), Some(AppKind::Game));
    assert_eq!(AppKind::from_sdl(b"mediaplayer"), Some(AppKind::MediaPlayer));
    assert_eq!(AppKind::from_sdl(b"application"), Some(AppKind::Application));
    assert_eq!(AppKind::from_sdl(b"Game"), None);
    assert_eq!(AppKind::from_sdl(b""), None);
    for k in [AppKind::Game, AppKind::MediaPlayer, AppKind::Application] {
        assert_eq!(AppKind::from_sdl(k.to_sdl().as_bytes()), Some(k));
    }
    assert_eq!(AppKind::MediaPlayer.to_sdl(), "mediaplayer");
}

#[test]
fn keyboard_state_reads_table() {
    let mut table = [false; 512];
    table[4] = true;
    table[511] = true;
    let k = KeyboardState::from_table(&table);
    assert!(k.pressed(4));
    assert!(!k.pressed(5));
    assert!(k.pressed(511));
}
