//! The panel that relates the units of the application to real lengths:
//! two lines, each a label, a unit selector, a second label and a field.

use crate::layout::{fits_i32, LayoutGen, Position, Rect, Size};
use crate::ui::{
    larger, larger_of, ADDED_HEIGHT, GROUP_H_PADDING, GROUP_V_PADDING, INPUT_WIDTH, LINE_V_PADDING,
    SELECTOR_WIDTH,
};
use vstd::prelude::*;

verus! {

/// Where the parts of the panel go, and how large the panel is.
#[derive(Copy, Clone, Debug)]
pub struct UnitSetupLayout {
    pub total_size: Size,
    pub app_per_real_selector_label: Rect,
    pub app_per_real_unit_selector: Rect,
    pub app_per_real_input_label: Rect,
    pub app_per_real_input: Rect,
    pub real_per_app_selector_label: Rect,
    pub real_per_app_unit_selector: Rect,
    pub real_per_app_input_label: Rect,
    pub real_per_app_input: Rect,
}

/// The extents of the panel's labels as measured on screen.
#[derive(Copy, Clone, Debug)]
pub struct UnitSetupMetrics {
    pub app_per_real_selector_label: Size,
    pub app_per_real_input_label: Size,
    pub real_per_app_selector_label: Size,
    pub real_per_app_input_label: Size,
}

impl UnitSetupMetrics {
    /// The height of the first line: that of its first label and a margin.
    pub open spec fn first_line_height(self) -> int {
        self.app_per_real_selector_label.1 + ADDED_HEIGHT
    }

    /// The height of the second line.
    pub open spec fn second_line_height(self) -> int {
        self.real_per_app_selector_label.1 + ADDED_HEIGHT
    }

    /// The width of the first line: the padding on both sides and the widths
    /// of the four parts. The gaps between the parts are not counted.
    pub open spec fn first_line_width(self) -> int {
        2 * GROUP_H_PADDING + self.app_per_real_selector_label.0 + SELECTOR_WIDTH
            + self.app_per_real_input_label.0 + INPUT_WIDTH
    }

    /// The width of the second line, counted as that of the first.
    pub open spec fn second_line_width(self) -> int {
        2 * GROUP_H_PADDING + self.real_per_app_selector_label.0 + SELECTOR_WIDTH
            + self.real_per_app_input_label.0 + INPUT_WIDTH
    }
    /// The height of the panel: both lines with the padding between them
    /// and around them.
    pub open spec fn total_height(self) -> int {
        self.first_line_height() + self.second_line_height() + LINE_V_PADDING + 2
            * GROUP_V_PADDING
    }

    /// Whether no label has a negative extent or one beyond `MAX_EXTENT`.
    pub open spec fn bounded(self) -> bool {
        &&& self.app_per_real_selector_label.bounded()
        &&& self.app_per_real_input_label.bounded()
        &&& self.real_per_app_selector_label.bounded()
        &&& self.real_per_app_input_label.bounded()
    }
}

impl<'a> LayoutGen<'a> for UnitSetupMetrics {
    type Arguments = ();

    type Layout = UnitSetupLayout;

    /// No label has a negative extent, and the widths of the lines and the
    /// height of the panel can be stored. Every coordinate in the panel is
    /// then within these.
    open spec fn fits(&self, arguments: ()) -> bool {
        &&& self.app_per_real_selector_label.measured()
        &&& self.app_per_real_input_label.measured()
        &&& self.real_per_app_selector_label.measured()
        &&& self.real_per_app_input_label.measured()
        &&& fits_i32(self.first_line_width())
        &&& fits_i32(self.second_line_width())
        &&& fits_i32(self.total_height())
    }

    /// Each line starts at the left padding with its first label and goes on
    /// to the right: selector, second label, field. Selector and field have
    /// their fixed widths and the height of their line. The second line
    /// starts a line padding below the first label.
    open spec fn layout(&self, arguments: ()) -> UnitSetupLayout {
        let first = Size(SELECTOR_WIDTH, self.first_line_height() as i32);
        let first_field = Size(INPUT_WIDTH, self.first_line_height() as i32);
        let second = Size(SELECTOR_WIDTH, self.second_line_height() as i32);
        let second_field = Size(INPUT_WIDTH, self.second_line_height() as i32);
        let app_per_real_selector_label = Rect(
            Position(GROUP_H_PADDING, GROUP_V_PADDING),
            self.app_per_real_selector_label,
        );
        let app_per_real_unit_selector = app_per_real_selector_label.beside(5, first);
        let app_per_real_input_label = app_per_real_unit_selector.beside(
            5,
            self.app_per_real_input_label,
        );
        let app_per_real_input = app_per_real_input_label.beside(5, first_field);
        let real_per_app_selector_label = app_per_real_selector_label.below(
            LINE_V_PADDING as int,
            self.real_per_app_selector_label,
        );
        let real_per_app_unit_selector = real_per_app_selector_label.beside(5, second);
        let real_per_app_input_label = real_per_app_unit_selector.beside(
            0,
            self.real_per_app_input_label,
        );
        let real_per_app_input = real_per_app_input_label.beside(5, second_field);
        UnitSetupLayout {
            total_size: Size(
                larger(self.first_line_width(), self.second_line_width()) as i32,
                self.total_height() as i32,
            ),
            app_per_real_selector_label,
            app_per_real_unit_selector,
            app_per_real_input_label,
            app_per_real_input,
            real_per_app_selector_label,
            real_per_app_unit_selector,
            real_per_app_input_label,
            real_per_app_input,
        }
    }

    fn generate_layout(&self, arguments: ()) -> (r: UnitSetupLayout) {
        let num_lines: i32 = 2;

        let height_l1: i32;
        let mut width_l1: i32 = GROUP_H_PADDING * 2;

        let app_per_real_selector_label = Rect(
            Position(GROUP_H_PADDING, GROUP_V_PADDING),
            self.app_per_real_selector_label,
        );
        height_l1 = app_per_real_selector_label.h() + ADDED_HEIGHT;
        width_l1 = width_l1 + app_per_real_selector_label.w();

        let app_per_real_unit_selector = Rect(
            app_per_real_selector_label.to_right(5),
            Size(SELECTOR_WIDTH, height_l1),
        );
        width_l1 = width_l1 + app_per_real_unit_selector.w();

        let app_per_real_input_label = Rect(
            app_per_real_unit_selector.to_right(5),
            self.app_per_real_input_label,
        );
        width_l1 = width_l1 + app_per_real_input_label.w();

        let app_per_real_input = Rect(
            app_per_real_input_label.to_right(5),
            Size(INPUT_WIDTH, height_l1),
        );
        width_l1 = width_l1 + app_per_real_input.w();

        let height_l2: i32;
        let mut width_l2: i32 = GROUP_H_PADDING * 2;

        let real_per_app_selector_label = Rect(
            app_per_real_selector_label.to_bottom(LINE_V_PADDING),
            self.real_per_app_selector_label,
        );
        height_l2 = real_per_app_selector_label.h() + ADDED_HEIGHT;
        width_l2 = width_l2 + real_per_app_selector_label.w();

        let real_per_app_unit_selector = Rect(
            real_per_app_selector_label.to_right(5),
            Size(SELECTOR_WIDTH, height_l2),
        );
        width_l2 = width_l2 + real_per_app_unit_selector.w();

        let real_per_app_input_label = Rect(
            real_per_app_unit_selector.to_right(0),
            self.real_per_app_input_label,
        );
        width_l2 = width_l2 + real_per_app_input_label.w();

        let real_per_app_input = Rect(
            real_per_app_input_label.to_right(5),
            Size(INPUT_WIDTH, height_l2),
        );
        width_l2 = width_l2 + real_per_app_input.w();

        let total_width = larger_of(width_l1, width_l2);
        let total_height = height_l1 + height_l2 + LINE_V_PADDING * (num_lines - 1)
            + GROUP_V_PADDING * 2;
        let total_size = Size(total_width, total_height);
        UnitSetupLayout {
            total_size,
            app_per_real_selector_label,
            app_per_real_unit_selector,
            app_per_real_input_label,
            app_per_real_input,
            real_per_app_selector_label,
            real_per_app_unit_selector,
            real_per_app_input_label,
            real_per_app_input,
        }
    }
}

} // verus!
