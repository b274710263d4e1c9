use codex_usage_dock::layout::{Focus, PanelLayout, PanelStep};

type Bounds = (i32, i32, i32, i32);
type Offset = (i32, i32);

#[test]
fn starts_expanded_and_clean() {
    let layout: PanelLayout<Bounds, Offset> = PanelLayout::default();
    assert!(!layout.collapsed);
    assert!(!layout.layout_dirty);
    assert!(layout.expanded_offset.is_none());
    assert!(layout.last_codex_window.is_none());
}

#[test]
fn codex_focus_remembers_bounds_and_arranges() {
    let mut layout: PanelLayout<Bounds, Offset> = PanelLayout::default();
    let bounds = (100, 50, 800, 600);
    let step = layout.poll(Focus::Codex(bounds));
    assert_eq!(step, PanelStep::Arrange { bounds, collapsed: false, offset: None });
    assert_eq!(layout.last_codex_window, Some(bounds));
}

#[test]
fn own_panel_before_codex_is_left_alone() {
    let mut layout: PanelLayout<Bounds, Offset> = PanelLayout::default();
    assert_eq!(layout.poll(Focus::OwnPanel), PanelStep::Keep);
}

#[test]
fn own_panel_follows_drags_or_applies_pending_layout() {
    let mut layout: PanelLayout<Bounds, Offset> = PanelLayout::default();
    let bounds = (0, 0, 10, 10);
    layout.poll(Focus::Codex(bounds));
    layout.mark_clean(false);
    assert_eq!(layout.poll(Focus::OwnPanel), PanelStep::FollowDrag { bounds, offset: None });

    layout.remember_expanded_offset((40, 80));
    assert_eq!(
        layout.poll(Focus::OwnPanel),
        PanelStep::FollowDrag { bounds, offset: Some((40, 80)) }
    );

    layout.set_collapsed(true);
    assert_eq!(
        layout.poll(Focus::OwnPanel),
        PanelStep::Arrange { bounds, collapsed: true, offset: Some((40, 80)) }
    );
    layout.mark_clean(true);
    assert_eq!(layout.poll(Focus::OwnPanel), PanelStep::Show);
}

#[test]
fn toggle_during_layout_is_not_lost() {
    let mut layout: PanelLayout<Bounds, Offset> = PanelLayout::default();
    layout.set_collapsed(true);
    // A layout made before the toggle, for the expanded panel, is applied.
    layout.mark_clean(false);
    assert!(layout.layout_dirty);
    layout.mark_clean(true);
    assert!(!layout.layout_dirty);
}

#[test]
fn other_windows_hide_the_panel() {
    let mut layout: PanelLayout<Bounds, Offset> = PanelLayout::default();
    layout.poll(Focus::Codex((1, 2, 3, 4)));
    let before = layout;
    assert_eq!(layout.poll(Focus::Elsewhere), PanelStep::Hide);
    assert_eq!(layout, before);
}
