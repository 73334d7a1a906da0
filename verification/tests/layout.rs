use letras3d::layout::{
    fits, shows, view_size, Viewport, Visualization, SIDEBAR_WIDTH, VIEWS_SPACING,
};

#[test]
fn grid_halves_what_the_side_panel_leaves() {
    assert_eq!(SIDEBAR_WIDTH, 320);
    assert_eq!(VIEWS_SPACING, 10);
    assert!(fits(Visualization::All, 960, 640));
    assert_eq!(view_size(Visualization::All, 960, 640), (305, 305));
    assert_eq!(view_size(Visualization::All, 961, 641), (305, 305));
    assert_eq!(view_size(Visualization::All, 350, 30), (0, 0));
    assert_eq!(view_size(Visualization::All, u32::MAX, u32::MAX), (2147483472, 2147483632));
}

#[test]
fn single_view_takes_all_that_is_left() {
    for visualization in [
        Visualization::Front,
        Visualization::Side,
        Visualization::Top,
        Visualization::Perspective,
    ] {
        assert!(fits(visualization, 960, 640));
        assert_eq!(view_size(visualization, 960, 640), (620, 620));
        assert_eq!(view_size(visualization, 340, 20), (0, 0));
    }
}

#[test]
fn small_windows_do_not_fit() {
    assert!(!fits(Visualization::All, 349, 640));
    assert!(!fits(Visualization::All, 960, 29));
    assert!(fits(Visualization::All, 350, 30));
    assert!(!fits(Visualization::Front, 339, 640));
    assert!(!fits(Visualization::Top, 960, 19));
    assert!(fits(Visualization::Side, 340, 20));
    assert!(!fits(Visualization::Perspective, 0, 0));
}

#[test]
fn grid_shows_every_viewport_and_a_single_view_only_itself() {
    let viewports = [Viewport::Front, Viewport::Side, Viewport::Top, Viewport::Perspective];
    for viewport in viewports {
        assert!(shows(Visualization::All, viewport));
    }
    let singles = [
        Visualization::Front,
        Visualization::Side,
        Visualization::Top,
        Visualization::Perspective,
    ];
    for (i, visualization) in singles.iter().enumerate() {
        for (j, viewport) in viewports.iter().enumerate() {
            assert_eq!(shows(*visualization, *viewport), i == j);
        }
    }
}
