use dip_desktop::event::Warning;
use dip_desktop::registry::{OpenWindowRequest, RegistryError, WindowRegistry};
use dip_desktop::window::{
    DEFAULT_RESIZE_TOLERANCE_MILLI, SCALE_ONE_MILLI, WindowDescriptor, WindowId, WindowMode,
    WindowState, abs_diff_u64, logical_of, physical_of,
};

fn descriptor_800_600() -> WindowDescriptor {
    WindowDescriptor {
        requested_width_milli: 800_000,
        requested_height_milli: 600_000,
        scale_factor_override_milli: None,
        mode: WindowMode::Windowed,
        resizable: true,
        decorations: true,
    }
}

fn state_800_600() -> WindowState {
    WindowState::from_descriptor(descriptor_800_600())
}

#[test]
fn logical_size_formulas() {
    // 800 px at factor 1.0 is 800.000 logical pixels.
    assert_eq!(logical_of(800, 1000), 800_000);
    // 1600 px at factor 2.0 is 800.000 logical pixels.
    assert_eq!(logical_of(1600, 2000), 800_000);
    // 800 px at factor 1.25 is 640.000 logical pixels.
    assert_eq!(logical_of(800, 1250), 640_000);
    // 799 px at factor 1.25 is 639.2 logical pixels, truncated in milli.
    assert_eq!(logical_of(799, 1250), 639_200);
}

#[test]
fn physical_size_formulas() {
    // 800.000 logical at factor 2.0 is 1600 px.
    assert_eq!(physical_of(800_000, 2000), 1600);
    // 800.000 logical at factor 1.25 is 1000 px.
    assert_eq!(physical_of(800_000, 1250), 1000);
    // A huge requested size at the largest factor clamps to u32::MAX.
    assert_eq!(physical_of(4_294_967_295_000, 1_000_000), u32::MAX);
}

#[test]
fn abs_diff_both_orders() {
    assert_eq!(abs_diff_u64(3, 10), 7);
    assert_eq!(abs_diff_u64(10, 3), 7);
    assert_eq!(abs_diff_u64(5, 5), 0);
}

#[test]
fn fresh_window_matches_descriptor() {
    let s = state_800_600();
    assert_eq!(s.physical_width, 800);
    assert_eq!(s.physical_height, 600);
    assert_eq!(s.scale_factor_milli, SCALE_ONE_MILLI);
    assert!(!s.focused);
    assert_eq!(s.resize_tolerance_milli, DEFAULT_RESIZE_TOLERANCE_MILLI);
    assert_eq!(s.logical_width_milli(), 800_000);
    assert_eq!(s.logical_height_milli(), 600_000);
}

#[test]
fn resize_scenario_800_to_801_to_850() {
    // Window at logical 800x600, factor 1.0: a native resize to 801x600
    // moves the logical width by one pixel, which is rounding noise; a
    // following resize to 850x600 emits exactly one event with the new
    // size.
    let mut s = state_800_600();
    let first = s.apply_resize(801, 600);
    assert!(first.is_none());
    // State still follows the backend even when no event is emitted.
    assert_eq!(s.physical_width, 801);
    let second = s.apply_resize(850, 600);
    assert_eq!(second, Some((850_000, 600_000)));
}

#[test]
fn resize_below_tolerance_never_emits() {
    // A long drift in sub-tolerance steps emits nothing at all.
    let mut s = state_800_600();
    for w in 801..=840 {
        assert!(s.apply_resize(w, 600).is_none());
    }
    assert_eq!(s.physical_width, 840);
}

#[test]
fn resize_at_threshold_emits_once() {
    let mut s = state_800_600();
    // Two logical pixels is beyond the one-pixel tolerance.
    let emitted = s.apply_resize(802, 600);
    assert_eq!(emitted, Some((802_000, 600_000)));
    // Height alone beyond tolerance emits too.
    let emitted = s.apply_resize(802, 700);
    assert_eq!(emitted, Some((802_000, 700_000)));
}

#[test]
fn resize_largest_size() {
    let mut s = state_800_600();
    let emitted = s.apply_resize(u32::MAX, u32::MAX);
    assert_eq!(emitted, Some((4_294_967_295_000, 4_294_967_295_000)));
}

#[test]
fn scale_change_without_override_accepts_backend_size() {
    let mut s = state_800_600();
    // Factor moves from 1.0 to 2.0; the backend proposes 1600x1200
    // physical. The logical size is recomputed from physical size and
    // the new factor, and the prior size is read at that same new
    // factor — 800x600 physical at 2.0 is 400x300 logical — so this
    // counts as a resize to 800x600 logical, and a rescale besides.
    let out = s.apply_scale_factor(2000, 1600, 1200);
    assert!(out.rescaled);
    assert!(!out.forced);
    assert_eq!(out.resized, Some((800_000, 600_000)));
    assert_eq!(out.inner_width, 1600);
    assert_eq!(out.inner_height, 1200);
    assert_eq!(s.scale_factor_milli, 2000);
    assert_eq!(s.logical_width_milli(), 800_000);
}

#[test]
fn scale_change_same_factor_is_no_rescale() {
    let mut s = state_800_600();
    let out = s.apply_scale_factor(1000, 800, 600);
    assert!(!out.rescaled);
    assert!(out.resized.is_none());
}

#[test]
fn scale_change_without_override_can_resize() {
    let mut s = state_800_600();
    // Factor moves to 2.0 and the backend proposes 1700x1200: the new
    // logical width is 850, and one resize is due with that size.
    let out = s.apply_scale_factor(2000, 1700, 1200);
    assert!(out.rescaled);
    assert_eq!(out.resized, Some((850_000, 600_000)));
}

#[test]
fn scale_change_with_override_forces_inner_size() {
    // With an override of 2.0 configured, whatever inner size the
    // backend reports, the window is forced to the override-scaled
    // requested size, and no scale-factor-changed event is due.
    let mut desc = descriptor_800_600();
    desc.scale_factor_override_milli = Some(2000);
    let mut s = WindowState::from_descriptor(desc);
    assert_eq!(s.physical_width, 1600);
    let out = s.apply_scale_factor(3000, 4321, 987);
    assert!(out.forced);
    assert!(!out.rescaled);
    assert_eq!(out.inner_width, 1600);
    assert_eq!(out.inner_height, 1200);
    assert!(out.resized.is_none());

    // The same change with a different reported size forces the same
    // inner size.
    let mut s2 = WindowState::from_descriptor({
        let mut d = descriptor_800_600();
        d.scale_factor_override_milli = Some(2000);
        d
    });
    let out2 = s2.apply_scale_factor(3000, 1, 1);
    assert_eq!(out2.inner_width, out.inner_width);
    assert_eq!(out2.inner_height, out.inner_height);
}

#[test]
fn open_first_window_succeeds() {
    let mut reg = WindowRegistry::new();
    assert_eq!(reg.count(), 0);
    let r = reg.open_window(OpenWindowRequest { native_id: 7, descriptor: descriptor_800_600() });
    assert_eq!(r, Ok(WindowId::primary()));
    assert_eq!(reg.count(), 1);
    assert_eq!(reg.resolve(7), Some(WindowId::primary()));
    assert_eq!(reg.resolve(8), None);
}

#[test]
fn second_open_request_warns_and_changes_nothing() {
    let mut reg = WindowRegistry::new();
    reg.open_window(OpenWindowRequest { native_id: 7, descriptor: descriptor_800_600() })
        .unwrap();
    let before_count = reg.count();
    let r = reg.open_window(OpenWindowRequest { native_id: 8, descriptor: descriptor_800_600() });
    assert_eq!(r, Err(Warning::MultipleWindowsUnsupported));
    assert_eq!(reg.count(), before_count);
    // The first window is untouched and still resolves.
    assert_eq!(reg.resolve(7), Some(WindowId::primary()));
    assert_eq!(reg.resolve(8), None);
}

#[test]
fn open_request_batch_counts_warnings() {
    let mut reg = WindowRegistry::new();
    let reqs = vec![
        OpenWindowRequest { native_id: 1, descriptor: descriptor_800_600() },
        OpenWindowRequest { native_id: 2, descriptor: descriptor_800_600() },
        OpenWindowRequest { native_id: 3, descriptor: descriptor_800_600() },
    ];
    let out = reg.process_open_requests(&reqs);
    assert_eq!(out.created, Some(WindowId::primary()));
    assert_eq!(out.warnings, 2);
    assert_eq!(reg.count(), 1);

    // A later batch is rejected wholesale: one warning per request.
    let out2 = reg.process_open_requests(&reqs);
    assert_eq!(out2.created, None);
    assert_eq!(out2.warnings, 3);
    assert_eq!(reg.count(), 1);
}

#[test]
fn registry_ops_on_missing_window_err() {
    let mut reg = WindowRegistry::new();
    let id = WindowId::primary();
    assert_eq!(reg.apply_native_resize(id, 10, 10), Err(RegistryError::NoSuchWindow));
    assert_eq!(reg.apply_native_move(id, 1, 2), Err(RegistryError::NoSuchWindow));
    assert_eq!(reg.apply_native_focus(id, true), Err(RegistryError::NoSuchWindow));
    assert_eq!(reg.set_minimized(true), Err(RegistryError::NoSuchWindow));
    assert_eq!(reg.toggle_maximized(), Err(RegistryError::NoSuchWindow));
    assert_eq!(reg.toggle_fullscreen(), Err(RegistryError::NoSuchWindow));
    assert!(reg.get(id).is_none());
    assert!(!reg.any_focused());
}

#[test]
fn registry_focus_and_toggles() {
    let mut reg = WindowRegistry::new();
    reg.open_window(OpenWindowRequest { native_id: 7, descriptor: descriptor_800_600() })
        .unwrap();
    assert!(!reg.any_focused());
    reg.focus_primary().unwrap();
    assert!(reg.any_focused());
    assert_eq!(reg.toggle_maximized(), Ok(true));
    assert_eq!(reg.toggle_maximized(), Ok(false));
    assert_eq!(reg.toggle_fullscreen(), Ok(WindowMode::Fullscreen));
    assert_eq!(reg.toggle_fullscreen(), Ok(WindowMode::Windowed));
}

#[test]
fn closed_window_is_remembered() {
    let mut reg = WindowRegistry::new();
    reg.open_window(OpenWindowRequest { native_id: 7, descriptor: descriptor_800_600() })
        .unwrap();
    assert!(!reg.was_closed(7));
    assert_eq!(reg.close_primary(), Ok(WindowId::primary()));
    assert_eq!(reg.count(), 0);
    assert!(reg.was_closed(7));
    assert!(!reg.was_closed(8));
    assert_eq!(reg.close_primary(), Err(RegistryError::NoSuchWindow));
    // After a close, the next open request may create a window again.
    let r = reg.open_window(OpenWindowRequest { native_id: 9, descriptor: descriptor_800_600() });
    assert_eq!(r, Ok(WindowId::primary()));
}
