//! The window as a whole: the paddings that every panel shares, and the
//! stacking of the three panels under one another.

use crate::focused::{FocusedLayout, FocusedMetrics};
use crate::layout::{fits_i32, LayoutGen, Position, Rect, Size, MAX_EXTENT};
use crate::monitor_properties::{MonitorPropertiesLayout, MonitorPropertiesMetrics};
use crate::output_tabs::{OutputTabsLayout, OutputTabsMetrics};
use crate::portal_like::{PortalLikeLayout, PortalLikeMetrics};
use crate::unit_setup::{UnitSetupLayout, UnitSetupMetrics};
use vstd::prelude::*;

verus! {

/// The horizontal padding of a widget group as a whole.
pub const GROUP_H_PADDING: i32 = 7;

/// The vertical padding of a widget group as a whole.
pub const GROUP_V_PADDING: i32 = 7;

/// How much height a line gets over the height of its first label.
pub const ADDED_HEIGHT: i32 = 4;

/// The vertical padding between lines.
pub const LINE_V_PADDING: i32 = 10;

/// The width of a field that holds a number.
pub const INPUT_WIDTH: i32 = 70;

/// The width of a unit selector.
pub const SELECTOR_WIDTH: i32 = 105;

/// The larger of two numbers.
pub open spec fn larger(a: int, b: int) -> int {
    if a >= b {
        a
    } else {
        b
    }
}

/// The larger of two numbers.
pub fn larger_of(a: i32, b: i32) -> (r: i32)
    ensures
        r == larger(a as int, b as int),
{
    if a >= b {
        a
    } else {
        b
    }
}

/// Where the three panels of the window go, and how large the window is.
#[derive(Copy, Clone, Debug)]
pub struct UiLayout {
    pub total_size: Size,
    pub monitor_properties: Rect,
    pub unit_setup: Rect,
    pub output_tabs: Rect,
}

/// The window, which stacks its panels and measures nothing itself.
#[derive(Copy, Clone, Debug)]
pub struct UiMetrics;

impl<'a> LayoutGen<'a> for UiMetrics {
    type Arguments = (&'a MonitorPropertiesLayout, &'a UnitSetupLayout, &'a OutputTabsLayout);

    type Layout = UiLayout;

    /// The heights of the panels can be added up.
    open spec fn fits(&self, arguments: Self::Arguments) -> bool {
        let first = arguments.0.total_size;
        let second = arguments.1.total_size;
        let third = arguments.2.total_size;
        fits_i32(first.1 + second.1) && fits_i32(first.1 + second.1 + third.1)
    }

    /// The panels stand under one another without a gap, from the top left
    /// corner down, each with its own extent. The window is as wide as the
    /// widest of them and as high as all three together.
    open spec fn layout(&self, arguments: Self::Arguments) -> UiLayout {
        let monitor_properties = Rect(Position(0, 0), arguments.0.total_size);
        let unit_setup = monitor_properties.below(0, arguments.1.total_size);
        let output_tabs = unit_setup.below(0, arguments.2.total_size);
        UiLayout {
            total_size: Size(
                larger(
                    larger(monitor_properties.1.0 as int, unit_setup.1.0 as int),
                    output_tabs.1.0 as int,
                ) as i32,
                (monitor_properties.1.1 + unit_setup.1.1 + output_tabs.1.1) as i32,
            ),
            monitor_properties,
            unit_setup,
            output_tabs,
        }
    }

    fn generate_layout(&self, arguments: Self::Arguments) -> (r: UiLayout) {
        let (monitor_properties_layout, unit_setup_layout, output_tabs_layout) = arguments;
        let mut height: i32 = 0;
        let monitor_properties = Rect(Position(0, 0), monitor_properties_layout.total_size);
        height = height + monitor_properties.h();
        let unit_setup = Rect(monitor_properties.to_bottom(0), unit_setup_layout.total_size);
        height = height + unit_setup.h();
        let output_tabs = Rect(unit_setup.to_bottom(0), output_tabs_layout.total_size);
        height = height + output_tabs.h();
        let width = larger_of(larger_of(monitor_properties.w(), unit_setup.w()), output_tabs.w());
        let total_size = Size(width, height);
        UiLayout { total_size, monitor_properties, unit_setup, output_tabs }
    }
}

/// What the panels of a window measured of their labels.
#[derive(Copy, Clone, Debug)]
pub struct WindowMetrics {
    pub monitor_properties: MonitorPropertiesMetrics,
    pub unit_setup: UnitSetupMetrics,
    pub portal_like: PortalLikeMetrics,
    pub focused: FocusedMetrics,
}

/// The layouts of the window and of everything in it.
#[derive(Copy, Clone, Debug)]
pub struct WindowLayout {
    pub ui: UiLayout,
    pub monitor_properties: MonitorPropertiesLayout,
    pub unit_setup: UnitSetupLayout,
    pub output_tabs: OutputTabsLayout,
    pub portal_like: PortalLikeLayout,
    pub focused: FocusedLayout,
}

impl WindowMetrics {
    /// Every panel can be laid out by itself, the tabs around their pages,
    /// and the window around the three panels.
    pub open spec fn fits(self) -> bool {
        &&& self.monitor_properties.fits(())
        &&& self.unit_setup.fits(())
        &&& self.portal_like.fits(())
        &&& self.focused.fits(())
        &&& OutputTabsMetrics.fits(
            (&self.portal_like.layout(()), &self.focused.layout(()), self.fill_width()),
        )
        &&& UiMetrics.fits(
            (&self.monitor_properties.layout(()), &self.unit_setup.layout(()), &self.output_tabs()),
        )
    }

    /// No label of any panel has a negative extent or one beyond
    /// `MAX_EXTENT`.
    pub open spec fn bounded(self) -> bool {
        &&& self.monitor_properties.bounded()
        &&& self.unit_setup.bounded()
        &&& self.portal_like.bounded()
        &&& self.focused.bounded()
    }

    /// The width that the tabs are to fill: that of the wider of the two
    /// panels above them.
    pub open spec fn fill_width(self) -> i32 {
        larger(
            self.monitor_properties.layout(()).total_size.0 as int,
            self.unit_setup.layout(()).total_size.0 as int,
        ) as i32
    }

    /// The layout of the tabs around the two pages.
    pub open spec fn output_tabs(self) -> OutputTabsLayout {
        OutputTabsMetrics.layout(
            (&self.portal_like.layout(()), &self.focused.layout(()), self.fill_width()),
        )
    }

    /// Every panel laid out by itself, the tabs made to fill the width of
    /// the panels above them, and the window stacked from the three.
    pub open spec fn layout(self) -> WindowLayout {
        WindowLayout {
            ui: UiMetrics.layout(
                (
                    &self.monitor_properties.layout(()),
                    &self.unit_setup.layout(()),
                    &self.output_tabs(),
                ),
            ),
            monitor_properties: self.monitor_properties.layout(()),
            unit_setup: self.unit_setup.layout(()),
            output_tabs: self.output_tabs(),
            portal_like: self.portal_like.layout(()),
            focused: self.focused.layout(()),
        }
    }
}

/// A window whose labels are all within `MAX_EXTENT` can be laid out.
pub proof fn lemma_bounded_window_fits(metrics: WindowMetrics)
    requires
        metrics.bounded(),
    ensures
        metrics.fits(),
{
}

/// Whether no label of the window has a negative extent or one beyond
/// `MAX_EXTENT`: the test to make where nothing more is known of the labels.
pub fn is_bounded(metrics: &WindowMetrics) -> (r: bool)
    ensures
        r == metrics.bounded(),
{
    let mp = &metrics.monitor_properties;
    let us = &metrics.unit_setup;
    let pl = &metrics.portal_like;
    let fo = &metrics.focused;
    in_bounds(mp.width_label) && in_bounds(mp.height_label) && in_bounds(mp.diagonal_label)
        && in_bounds(mp.aspect_label) && in_bounds(mp.aspect_sep) && in_bounds(mp.distance_label)
        && 0 <= mp.width_unit_selector_width && mp.width_unit_selector_width <= MAX_EXTENT
        && in_bounds(us.app_per_real_selector_label) && in_bounds(us.app_per_real_input_label)
        && in_bounds(us.real_per_app_selector_label) && in_bounds(us.real_per_app_input_label)
        && in_bounds(pl.fov_label) && in_bounds(pl.move_label_1) && in_bounds(pl.move_label_2)
        && in_bounds(pl.move_label_3) && in_bounds(fo.accurate_distance_label_1) && in_bounds(
        fo.accurate_distance_label_2,
    ) && in_bounds(fo.fov_output_label)
}

/// Whether neither part of `size` is negative or beyond `MAX_EXTENT`.
pub fn in_bounds(size: Size) -> (r: bool)
    ensures
        r == size.bounded(),
{
    0 <= size.0 && size.0 <= MAX_EXTENT && 0 <= size.1 && size.1 <= MAX_EXTENT
}

/// Lays out a whole window from what its panels measured: each panel by
/// itself, the tabs as wide as the panels above them, the window around all.
pub fn build_ui(metrics: &WindowMetrics) -> (r: WindowLayout)
    requires
        metrics.fits(),
    ensures
        r == metrics.layout(),
{
    let monitor_properties = metrics.monitor_properties.generate_layout(());
    let unit_setup = metrics.unit_setup.generate_layout(());
    let portal_like = metrics.portal_like.generate_layout(());
    let focused = metrics.focused.generate_layout(());
    let fill_width = larger_of(monitor_properties.total_size.w(), unit_setup.total_size.w());
    let output_tabs = OutputTabsMetrics.generate_layout((&portal_like, &focused, fill_width));
    let ui = UiMetrics.generate_layout((&monitor_properties, &unit_setup, &output_tabs));
    WindowLayout { ui, monitor_properties, unit_setup, output_tabs, portal_like, focused }
}

} // verus!
