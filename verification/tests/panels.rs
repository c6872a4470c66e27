use fpvsetup::focused::FocusedMetrics;
use fpvsetup::layout::{LayoutGen, Position, Rect, Size};
use fpvsetup::monitor_properties::MonitorPropertiesMetrics;
use fpvsetup::output_tabs::{OutputTabsMetrics, TABS_HEADER_HEIGHT};
use fpvsetup::portal_like::PortalLikeMetrics;
use fpvsetup::ui::{build_ui, larger_of, UiMetrics, WindowMetrics};
use fpvsetup::unit_setup::UnitSetupMetrics;

fn monitor_properties() -> MonitorPropertiesMetrics {
    MonitorPropertiesMetrics {
        width_label: Size(96, 17),
        height_label: Size(50, 17),
        diagonal_label: Size(112, 17),
        aspect_label: Size(85, 17),
        aspect_sep: Size(4, 17),
        distance_label: Size(110, 17),
        width_unit_selector_width: 0,
    }
}

fn unit_setup() -> UnitSetupMetrics {
    UnitSetupMetrics {
        app_per_real_selector_label: Size(88, 17),
        app_per_real_input_label: Size(120, 17),
        real_per_app_selector_label: Size(200, 17),
        real_per_app_input_label: Size(4, 17),
    }
}

fn portal_like() -> PortalLikeMetrics {
    PortalLikeMetrics {
        fov_label: Size(80, 17),
        move_label_1: Size(140, 17),
        move_label_2: Size(5, 17),
        move_label_3: Size(40, 17),
    }
}

fn focused() -> FocusedMetrics {
    FocusedMetrics {
        accurate_distance_label_1: Size(95, 17),
        accurate_distance_label_2: Size(150, 17),
        fov_output_label: Size(135, 17),
    }
}

#[test]
fn larger_of_two() {
    assert_eq!(larger_of(3, 4), 4);
    assert_eq!(larger_of(4, 3), 4);
    assert_eq!(larger_of(-4, -3), -3);
    assert_eq!(larger_of(5, 5), 5);
}

#[test]
fn monitor_properties_layout() {
    let l = monitor_properties().generate_layout(());
    assert_eq!(l.width_label, Rect(Position(7, 7), Size(96, 17)));
    assert_eq!(l.width_input, Rect(Position(108, 7), Size(70, 21)));
    assert_eq!(l.width_unit_selector, Rect(Position(183, 7), Size(105, 21)));
    assert_eq!(l.height_label, Rect(Position(288, 7), Size(50, 17)));
    assert_eq!(l.height_input, Rect(Position(343, 7), Size(70, 21)));
    assert_eq!(l.height_unit_selector, Rect(Position(418, 7), Size(105, 21)));
    assert_eq!(l.diagonal_label, Rect(Position(7, 34), Size(112, 17)));
    assert_eq!(l.diagonal_input, Rect(Position(124, 34), Size(70, 21)));
    assert_eq!(l.diagonal_unit_selector, Rect(Position(199, 34), Size(105, 21)));
    assert_eq!(l.aspect_label, Rect(Position(304, 34), Size(85, 17)));
    assert_eq!(l.aspect_n_input, Rect(Position(394, 34), Size(65, 21)));
    assert_eq!(l.aspect_sep, Rect(Position(460, 34), Size(4, 17)));
    assert_eq!(l.aspect_d_input, Rect(Position(465, 34), Size(65, 21)));
    assert_eq!(l.distance_label, Rect(Position(7, 61), Size(110, 17)));
    assert_eq!(l.distance_input, Rect(Position(122, 61), Size(70, 21)));
    assert_eq!(l.distance_unit_selector, Rect(Position(197, 61), Size(105, 21)));
    assert_eq!(l.total_size, Size(537, 97));
}

#[test]
fn monitor_properties_layout_with_lines_of_different_heights() {
    let metrics = MonitorPropertiesMetrics {
        width_label: Size(10, 20),
        height_label: Size(30, 12),
        diagonal_label: Size(5, 8),
        aspect_label: Size(7, 9),
        aspect_sep: Size(2, 3),
        distance_label: Size(11, 13),
        width_unit_selector_width: 105,
    };
    let l = metrics.generate_layout(());
    assert_eq!(l.width_label, Rect(Position(7, 7), Size(10, 20)));
    assert_eq!(l.width_input, Rect(Position(22, 7), Size(70, 24)));
    assert_eq!(l.width_unit_selector, Rect(Position(97, 7), Size(105, 24)));
    assert_eq!(l.height_label, Rect(Position(202, 7), Size(30, 12)));
    assert_eq!(l.height_input, Rect(Position(237, 7), Size(70, 24)));
    assert_eq!(l.height_unit_selector, Rect(Position(312, 7), Size(105, 24)));
    assert_eq!(l.diagonal_label, Rect(Position(7, 37), Size(5, 8)));
    assert_eq!(l.diagonal_input, Rect(Position(17, 37), Size(70, 12)));
    assert_eq!(l.diagonal_unit_selector, Rect(Position(92, 37), Size(105, 12)));
    assert_eq!(l.aspect_label, Rect(Position(197, 37), Size(7, 9)));
    assert_eq!(l.aspect_n_input, Rect(Position(209, 37), Size(65, 12)));
    assert_eq!(l.aspect_sep, Rect(Position(275, 37), Size(2, 3)));
    assert_eq!(l.aspect_d_input, Rect(Position(278, 37), Size(65, 12)));
    assert_eq!(l.distance_label, Rect(Position(7, 55), Size(11, 13)));
    assert_eq!(l.distance_input, Rect(Position(23, 55), Size(70, 17)));
    assert_eq!(l.distance_unit_selector, Rect(Position(98, 55), Size(105, 17)));
    assert_eq!(l.total_size, Size(424, 87));
}

#[test]
fn monitor_properties_first_line_counts_the_selector_as_it_is() {
    let narrow = monitor_properties();
    let mut wide = narrow;
    wide.width_unit_selector_width = 1000;
    let narrow = narrow.generate_layout(());
    let wide = wide.generate_layout(());
    assert_eq!(narrow.total_size, Size(537, 97));
    assert_eq!(wide.total_size, Size(1425, 97));
    assert_eq!(wide.width_unit_selector, narrow.width_unit_selector);
    assert_eq!(wide.height_label, narrow.height_label);
}

#[test]
fn unit_setup_layout() {
    let l = unit_setup().generate_layout(());
    assert_eq!(l.app_per_real_selector_label, Rect(Position(7, 7), Size(88, 17)));
    assert_eq!(l.app_per_real_unit_selector, Rect(Position(100, 7), Size(105, 21)));
    assert_eq!(l.app_per_real_input_label, Rect(Position(210, 7), Size(120, 17)));
    assert_eq!(l.app_per_real_input, Rect(Position(335, 7), Size(70, 21)));
    assert_eq!(l.real_per_app_selector_label, Rect(Position(7, 34), Size(200, 17)));
    assert_eq!(l.real_per_app_unit_selector, Rect(Position(212, 34), Size(105, 21)));
    assert_eq!(l.real_per_app_input_label, Rect(Position(317, 34), Size(4, 17)));
    assert_eq!(l.real_per_app_input, Rect(Position(326, 34), Size(70, 21)));
    assert_eq!(l.total_size, Size(397, 66));
}

#[test]
fn portal_like_layout() {
    let l = portal_like().generate_layout(());
    assert_eq!(l.fov_label, Rect(Position(7, 7), Size(80, 17)));
    assert_eq!(l.fov_output, Rect(Position(92, 7), Size(70, 21)));
    assert_eq!(l.move_label_1, Rect(Position(7, 34), Size(140, 17)));
    assert_eq!(l.move_output, Rect(Position(152, 34), Size(70, 21)));
    assert_eq!(l.move_unit_selector, Rect(Position(227, 34), Size(105, 21)));
    assert_eq!(l.move_label_2, Rect(Position(337, 34), Size(5, 17)));
    assert_eq!(l.move_units_output, Rect(Position(344, 34), Size(70, 21)));
    assert_eq!(l.move_label_3, Rect(Position(419, 34), Size(40, 17)));
    assert_eq!(l.total_size, Size(444, 66));
    assert_eq!(l.containing_group, Rect(Position(0, 0), Size(444, 66)));
}

#[test]
fn focused_layout() {
    let l = focused().generate_layout(());
    assert_eq!(l.accurate_distance_label_1, Rect(Position(7, 7), Size(95, 17)));
    assert_eq!(l.accurate_distance_input, Rect(Position(107, 7), Size(70, 21)));
    assert_eq!(l.accurate_distance_unit_selector, Rect(Position(182, 7), Size(105, 21)));
    assert_eq!(l.accurate_distance_label_2, Rect(Position(292, 7), Size(150, 17)));
    assert_eq!(l.fov_output_label, Rect(Position(7, 34), Size(135, 17)));
    assert_eq!(l.fov_output, Rect(Position(147, 34), Size(70, 21)));
    assert_eq!(l.total_size, Size(434, 66));
    assert_eq!(l.containing_group, Rect(Position(0, 0), Size(434, 66)));
}

#[test]
fn output_tabs_layout_filled_by_its_pages() {
    let pl = portal_like().generate_layout(());
    let fo = focused().generate_layout(());
    let l = OutputTabsMetrics.generate_layout((&pl, &fo, 100));
    assert_eq!(l.tabs, Rect(Position(7, 7), Size(444, 87)));
    assert_eq!(l.portal_like, Rect(Position(7, 28), Size(444, 66)));
    assert_eq!(l.focused, Rect(Position(7, 28), Size(434, 66)));
    assert_eq!(l.total_size, Size(458, 101));
}

#[test]
fn output_tabs_layout_made_to_fill_a_width() {
    let mut pl = portal_like().generate_layout(());
    let mut fo = focused().generate_layout(());
    pl.total_size = Size(100, 50);
    fo.total_size = Size(80, 70);
    let l = OutputTabsMetrics.generate_layout((&pl, &fo, 500));
    assert_eq!(l.tabs, Rect(Position(7, 7), Size(486, 91)));
    assert_eq!(l.portal_like, Rect(Position(7, 28), Size(100, 50)));
    assert_eq!(l.focused, Rect(Position(7, 28), Size(80, 70)));
    assert_eq!(l.total_size, Size(500, 105));
    assert_eq!(TABS_HEADER_HEIGHT, 21);
}

#[test]
fn ui_layout_stacks_the_panels() {
    let mp = monitor_properties().generate_layout(());
    let us = unit_setup().generate_layout(());
    let pl = portal_like().generate_layout(());
    let fo = focused().generate_layout(());
    let ot = OutputTabsMetrics.generate_layout((&pl, &fo, 537));
    let l = UiMetrics.generate_layout((&mp, &us, &ot));
    assert_eq!(l.monitor_properties, Rect(Position(0, 0), Size(537, 97)));
    assert_eq!(l.unit_setup, Rect(Position(0, 97), Size(397, 66)));
    assert_eq!(l.output_tabs, Rect(Position(0, 163), Size(537, 101)));
    assert_eq!(l.total_size, Size(537, 264));
}

#[test]
fn build_ui_lays_out_the_whole_window() {
    let metrics = WindowMetrics {
        monitor_properties: monitor_properties(),
        unit_setup: unit_setup(),
        portal_like: portal_like(),
        focused: focused(),
    };
    let l = build_ui(&metrics);
    assert_eq!(l.monitor_properties.total_size, Size(537, 97));
    assert_eq!(l.unit_setup.total_size, Size(397, 66));
    assert_eq!(l.portal_like.total_size, Size(444, 66));
    assert_eq!(l.focused.total_size, Size(434, 66));
    assert_eq!(l.output_tabs.tabs, Rect(Position(7, 7), Size(523, 87)));
    assert_eq!(l.output_tabs.portal_like, Rect(Position(7, 28), Size(444, 66)));
    assert_eq!(l.output_tabs.focused, Rect(Position(7, 28), Size(434, 66)));
    assert_eq!(l.output_tabs.total_size, Size(537, 101));
    assert_eq!(l.ui.monitor_properties, Rect(Position(0, 0), Size(537, 97)));
    assert_eq!(l.ui.unit_setup, Rect(Position(0, 97), Size(397, 66)));
    assert_eq!(l.ui.output_tabs, Rect(Position(0, 163), Size(537, 101)));
    assert_eq!(l.ui.total_size, Size(537, 264));
}

#[test]
fn labels_of_no_extent() {
    let metrics = FocusedMetrics {
        accurate_distance_label_1: Size(0, 0),
        accurate_distance_label_2: Size(0, 0),
        fov_output_label: Size(0, 0),
    };
    let l = metrics.generate_layout(());
    assert_eq!(l.accurate_distance_label_1, Rect(Position(7, 7), Size(0, 0)));
    assert_eq!(l.accurate_distance_input, Rect(Position(12, 7), Size(70, 4)));
    assert_eq!(l.fov_output_label, Rect(Position(7, 17), Size(0, 0)));
    assert_eq!(l.fov_output, Rect(Position(12, 17), Size(70, 4)));
    assert_eq!(l.total_size, Size(189, 32));
}

#[test]
fn labels_of_the_largest_extent() {
    let most = fpvsetup::layout::MAX_EXTENT;
    let metrics = WindowMetrics {
        monitor_properties: MonitorPropertiesMetrics {
            width_label: Size(most, most),
            height_label: Size(most, most),
            diagonal_label: Size(most, most),
            aspect_label: Size(most, most),
            aspect_sep: Size(most, most),
            distance_label: Size(most, most),
            width_unit_selector_width: most,
        },
        unit_setup: UnitSetupMetrics {
            app_per_real_selector_label: Size(most, most),
            app_per_real_input_label: Size(most, most),
            real_per_app_selector_label: Size(most, most),
            real_per_app_input_label: Size(most, most),
        },
        portal_like: PortalLikeMetrics {
            fov_label: Size(most, most),
            move_label_1: Size(most, most),
            move_label_2: Size(most, most),
            move_label_3: Size(most, most),
        },
        focused: FocusedMetrics {
            accurate_distance_label_1: Size(most, most),
            accurate_distance_label_2: Size(most, most),
            fov_output_label: Size(most, most),
        },
    };
    let l = build_ui(&metrics);
    assert_eq!(l.monitor_properties.total_size, Size(3 * most + 336, 3 * most + 46));
    assert_eq!(l.ui.total_size.w(), 3 * most + 336);
    assert_eq!(l.ui.total_size.h(), 3 * most + 46 + 2 * most + 32 + 2 * most + 32 + 21 + 14);
}

#[test]
fn window_within_bounds() {
    let mut metrics = WindowMetrics {
        monitor_properties: monitor_properties(),
        unit_setup: unit_setup(),
        portal_like: portal_like(),
        focused: focused(),
    };
    assert!(fpvsetup::ui::is_bounded(&metrics));
    metrics.focused.fov_output_label = Size(fpvsetup::layout::MAX_EXTENT, 0);
    assert!(fpvsetup::ui::is_bounded(&metrics));
    metrics.focused.fov_output_label = Size(fpvsetup::layout::MAX_EXTENT + 1, 0);
    assert!(!fpvsetup::ui::is_bounded(&metrics));
    metrics.focused.fov_output_label = Size(0, -1);
    assert!(!fpvsetup::ui::is_bounded(&metrics));
    metrics.focused.fov_output_label = Size(0, 0);
    metrics.monitor_properties.width_unit_selector_width = -1;
    assert!(!fpvsetup::ui::is_bounded(&metrics));
    metrics.monitor_properties.width_unit_selector_width = fpvsetup::layout::MAX_EXTENT + 1;
    assert!(!fpvsetup::ui::is_bounded(&metrics));
}

#[test]
fn label_bounds() {
    let most = fpvsetup::layout::MAX_EXTENT;
    assert_eq!(most, 1 << 28);
    assert!(fpvsetup::ui::in_bounds(Size(0, 0)));
    assert!(fpvsetup::ui::in_bounds(Size(most, most)));
    assert!(!fpvsetup::ui::in_bounds(Size(most + 1, 0)));
    assert!(!fpvsetup::ui::in_bounds(Size(0, most + 1)));
    assert!(!fpvsetup::ui::in_bounds(Size(-1, 0)));
    assert!(!fpvsetup::ui::in_bounds(Size(0, -1)));
}

#[test]
fn one_very_wide_label_alone_still_fits() {
    let metrics = FocusedMetrics {
        accurate_distance_label_1: Size(2_000_000_000, 17),
        accurate_distance_label_2: Size(0, 17),
        fov_output_label: Size(10, 17),
    };
    let l = metrics.generate_layout(());
    assert_eq!(l.accurate_distance_label_2, Rect(Position(2_000_000_197, 7), Size(0, 17)));
    assert_eq!(l.total_size, Size(2_000_000_189, 66));
}
