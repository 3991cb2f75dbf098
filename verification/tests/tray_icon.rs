use loudeq::icon::{icon_pixels, opacity, ICON_SIZE};
use loudeq::tray::{
    autostart_command, balloon_text, balloon_title, handle_event, handle_result, menu,
    start_tray_icon, tip_text, tray_event, Balloon, MenuItem, TrayAct, TrayEvent, TrayResult,
    TrayStage, IDM_AUTOSTART, IDM_EXIT, IDM_TOGGLE, WM_DESTROY, WM_EXTERNAL_TOGGLE, WM_LBUTTONUP,
    WM_RBUTTONUP, WM_TIMER, WM_TRAYICON,
};

#[test]
fn messages_are_understood() {
    assert_eq!(tray_event(WM_TRAYICON, WM_LBUTTONUP, 0), TrayEvent::Toggle);
    assert_eq!(tray_event(WM_TRAYICON, WM_RBUTTONUP, 0), TrayEvent::Menu);
    assert_eq!(tray_event(WM_TRAYICON, 0x200, 0), TrayEvent::Ignored);
    assert_eq!(tray_event(WM_EXTERNAL_TOGGLE, 0, 0), TrayEvent::Toggle);
    assert_eq!(tray_event(WM_TIMER, 0, 0), TrayEvent::Refresh);
    assert_eq!(tray_event(WM_DESTROY, 0, 0), TrayEvent::Destroyed);
    assert_eq!(tray_event(0xc123, 0, 0xc123), TrayEvent::TaskbarCreated);
    assert_eq!(tray_event(0xc123, 0, 0xc124), TrayEvent::Other);
    assert_eq!(tray_event(0, 0, 0), TrayEvent::Other);
    assert_eq!(tray_event(WM_TIMER, 0, WM_TIMER), TrayEvent::Refresh);
}

#[test]
fn message_numbers_are_those_of_windows() {
    assert_eq!(WM_TRAYICON, windows::Win32::UI::WindowsAndMessaging::WM_APP + 1);
    assert_eq!(WM_EXTERNAL_TOGGLE, windows::Win32::UI::WindowsAndMessaging::WM_APP + 2);
    assert_eq!(WM_TIMER, windows::Win32::UI::WindowsAndMessaging::WM_TIMER);
    assert_eq!(WM_DESTROY, windows::Win32::UI::WindowsAndMessaging::WM_DESTROY);
    assert_eq!(WM_LBUTTONUP, windows::Win32::UI::WindowsAndMessaging::WM_LBUTTONUP);
    assert_eq!(WM_RBUTTONUP, windows::Win32::UI::WindowsAndMessaging::WM_RBUTTONUP);
}

#[test]
fn the_icon_starts_with_the_state() {
    for (found, shown) in [
        (None, false),
        (Some(None), false),
        (Some(Some(false)), false),
        (Some(Some(true)), true),
    ] {
        let turn = start_tray_icon(found);
        assert_eq!(turn.shown, shown);
        assert_eq!(turn.acts, vec![TrayAct::AddIcon(shown)]);
        assert_eq!(turn.stage, TrayStage::Handled);
    }
}

#[test]
fn a_click_toggles_and_tells() {
    for (state, desired) in [(None, true), (Some(false), true), (Some(true), false)] {
        let turn = handle_event(!desired, TrayEvent::Toggle);
        assert_eq!(turn.stage, TrayStage::ToggleRead);
        let turn = handle_result(turn.shown, turn.stage, TrayResult::Found(Some(state)));
        assert_eq!(turn.stage, TrayStage::ToggleApply(desired));
        let failed = handle_result(turn.shown, turn.stage, TrayResult::Applied(false));
        assert_eq!(failed.acts, vec![TrayAct::Tell(Balloon::CouldNotApply)]);
        assert_eq!(failed.shown, !desired);
        assert_eq!(failed.stage, TrayStage::Handled);
        let turn = handle_result(turn.shown, turn.stage, TrayResult::Applied(true));
        assert_eq!(turn.stage, TrayStage::ToggleReset(desired));
        for reset in [true, false] {
            let last = handle_result(turn.shown, turn.stage, TrayResult::Applied(reset));
            assert_eq!(last.shown, desired);
            assert_eq!(
                last.acts,
                vec![TrayAct::UpdateIcon(desired), TrayAct::Tell(Balloon::NowIs(desired))]
            );
            assert_eq!(last.stage, TrayStage::Handled);
        }
    }
}

#[test]
fn a_click_without_a_device_tells_so() {
    let turn = handle_result(true, TrayStage::ToggleRead, TrayResult::Found(None));
    assert_eq!(turn.acts, vec![TrayAct::Tell(Balloon::NoDevice)]);
    assert!(turn.shown);
    assert_eq!(turn.stage, TrayStage::Handled);
}

#[test]
fn the_timer_brings_the_icon_up_to_date() {
    assert_eq!(handle_event(true, TrayEvent::Refresh).stage, TrayStage::RefreshRead);
    let same = handle_result(true, TrayStage::RefreshRead, TrayResult::Found(Some(Some(true))));
    assert!(same.shown && same.acts.is_empty());
    let off = handle_result(true, TrayStage::RefreshRead, TrayResult::Found(Some(None)));
    assert!(!off.shown);
    assert_eq!(off.acts, vec![TrayAct::UpdateIcon(false)]);
    let none = handle_result(true, TrayStage::RefreshRead, TrayResult::Found(None));
    assert!(none.shown && none.acts.is_empty());
}

#[test]
fn a_new_taskbar_gets_the_icon_again() {
    let turn = handle_event(true, TrayEvent::TaskbarCreated);
    assert_eq!(turn.acts, vec![TrayAct::AddIcon(true)]);
    let turn = handle_event(true, TrayEvent::Destroyed);
    assert_eq!(turn.acts, vec![TrayAct::RemoveIcon, TrayAct::Quit]);
    assert_eq!(handle_event(true, TrayEvent::Ignored).stage, TrayStage::Handled);
    assert_eq!(handle_event(true, TrayEvent::Other).stage, TrayStage::PassOn);
    assert_eq!(handle_event(true, TrayEvent::Menu).stage, TrayStage::ShowMenu);
}

#[test]
fn the_menu_is_obeyed() {
    let chosen = |id| handle_result(false, TrayStage::ShowMenu, TrayResult::Chosen(id));
    assert_eq!(chosen(IDM_TOGGLE).stage, TrayStage::ToggleRead);
    assert_eq!(chosen(IDM_AUTOSTART).stage, TrayStage::ReadAutostart);
    assert_eq!(chosen(IDM_EXIT).acts, vec![TrayAct::RemoveIcon, TrayAct::Quit]);
    assert!(chosen(0).acts.is_empty());
    assert_eq!(chosen(0).stage, TrayStage::Handled);
    for enabled in [true, false] {
        let turn =
            handle_result(false, TrayStage::ReadAutostart, TrayResult::Autostart(enabled));
        assert_eq!(turn.acts, vec![TrayAct::Autostart(!enabled)]);
    }
}

fn heading(found: Option<Option<bool>>, device: Option<&str>) -> String {
    match menu(found, device, false).into_iter().next() {
        Some(MenuItem::Heading(text)) => text,
        other => panic!("{other:?}"),
    }
}

#[test]
fn the_menu_shows_state_and_choices() {
    assert_eq!(heading(Some(Some(true)), Some("Speakers")), "Loudness EQ: ON — Speakers");
    assert_eq!(heading(Some(None), Some("Speakers")), "Loudness EQ: OFF — Speakers");
    assert_eq!(heading(None, None), "Loudness EQ: OFF (never set)");
    for autostart in [true, false] {
        let items = menu(None, None, autostart);
        assert_eq!(items.len(), 5);
        assert!(matches!(items[1], MenuItem::Separator));
        let entries: Vec<(usize, String, bool)> = items
            .into_iter()
            .skip(2)
            .map(|item| match item {
                MenuItem::Entry { id, text, checked } => (id, text, checked),
                other => panic!("{other:?}"),
            })
            .collect();
        assert_eq!(
            entries,
            vec![
                (1, "Toggle".to_string(), false),
                (2, "Start with Windows".to_string(), autostart),
                (3, "Exit".to_string(), false),
            ]
        );
    }
}

#[test]
fn balloons_and_tips_have_their_words() {
    assert_eq!(tip_text(true), "Loudness EQ: ON — click to toggle");
    assert_eq!(tip_text(false), "Loudness EQ: OFF — click to toggle");
    assert!(tip_text(false).encode_utf16().count() < 128);
    assert_eq!(balloon_title(Balloon::NoDevice, "d"), "loudeq");
    assert_eq!(balloon_title(Balloon::NowIs(true), "d"), "d");
    assert_eq!(balloon_title(Balloon::CouldNotApply, "d"), "loudeq error");
    assert_eq!(balloon_text(Balloon::NoDevice, "r"), "No default playback device found.");
    assert_eq!(balloon_text(Balloon::NowIs(true), "r"), "Loudness Equalization: ON");
    assert_eq!(balloon_text(Balloon::NowIs(false), "r"), "Loudness Equalization: OFF");
    assert_eq!(balloon_text(Balloon::CouldNotApply, "r"), "Could not apply: r");
    assert_eq!(autostart_command(r"C:\a b\t.exe"), "\"C:\\a b\\t.exe\"");
}

/// The opacity by the distance itself.
fn smooth(on: bool, x: usize, y: usize) -> u32 {
    let dx = x as f32 - 15.5;
    let dy = y as f32 - 15.5;
    let d = (dx * dx + dy * dy).sqrt();
    let mut a = if d <= 13.0 {
        255.0
    } else if d < 15.0 {
        255.0 * (15.0 - d) / 2.0
    } else {
        0.0
    };
    if !on {
        let hole = if d <= 7.0 {
            0.0
        } else if d < 9.0 {
            (d - 7.0) / 2.0
        } else {
            1.0
        };
        a *= hole;
    }
    a as u32
}

#[test]
fn the_icon_is_smooth() {
    for on in [true, false] {
        let (r, g, b) = if on { (0x21, 0xc9, 0x3b) } else { (0x8a, 0x8a, 0x8a) };
        let pixels = icon_pixels(on);
        assert_eq!(pixels.len(), ICON_SIZE * ICON_SIZE * 4);
        for y in 0..ICON_SIZE {
            for x in 0..ICON_SIZE {
                let a = smooth(on, x, y);
                assert_eq!(opacity(on, x, y), a);
                let i = (y * ICON_SIZE + x) * 4;
                assert_eq!(
                    pixels[i..i + 4],
                    [(b * a / 255) as u8, (g * a / 255) as u8, (r * a / 255) as u8, a as u8]
                );
            }
        }
    }
}

#[test]
fn dot_and_ring_differ_in_shape() {
    assert_eq!(opacity(true, 16, 16), 255);
    assert_eq!(opacity(false, 16, 16), 0);
    assert_eq!(opacity(false, 16, 26), 255);
    assert_eq!(opacity(true, 0, 0), 0);
    assert_eq!(opacity(true, 16, 29), smooth(true, 16, 29));
}
