//! The output tab for the mode in which things at one chosen distance are
//! shown at their true scale: a line that takes the distance, and a line
//! with the field of view for the camera.

use crate::layout::{fits_i32, LayoutGen, Position, Rect, Size};
use crate::ui::{
    larger, larger_of, ADDED_HEIGHT, GROUP_H_PADDING, GROUP_V_PADDING, INPUT_WIDTH,
    LINE_V_PADDING, SELECTOR_WIDTH,
};
use vstd::prelude::*;

verus! {

/// Where the parts of the tab go, and how large the tab is.
#[derive(Copy, Clone, Debug)]
pub struct FocusedLayout {
    pub total_size: Size,
    pub containing_group: Rect,
    pub accurate_distance_label_1: Rect,
    pub accurate_distance_input: Rect,
    pub accurate_distance_unit_selector: Rect,
    pub accurate_distance_label_2: Rect,
    pub fov_output_label: Rect,
    pub fov_output: Rect,
}

/// The extents of the tab's labels as measured on screen.
#[derive(Copy, Clone, Debug)]
pub struct FocusedMetrics {
    pub accurate_distance_label_1: Size,
    pub accurate_distance_label_2: Size,
    pub fov_output_label: Size,
}

impl FocusedMetrics {
    /// The height of the first line: that of its first label and a margin.
    pub open spec fn first_line_height(self) -> int {
        self.accurate_distance_label_1.1 + ADDED_HEIGHT
    }

    /// The height of the second line.
    pub open spec fn second_line_height(self) -> int {
        self.fov_output_label.1 + ADDED_HEIGHT
    }

    /// The width of the first line: the padding on both sides and the widths
    /// of its parts. The gaps between the parts are not counted.
    pub open spec fn first_line_width(self) -> int {
        2 * GROUP_H_PADDING + self.accurate_distance_label_1.0 + INPUT_WIDTH + SELECTOR_WIDTH
            + self.accurate_distance_label_2.0
    }

    /// The width of the second line, counted as that of the first.
    pub open spec fn second_line_width(self) -> int {
        2 * GROUP_H_PADDING + self.fov_output_label.0 + INPUT_WIDTH
    }

    /// How far to the right the last label of the first line starts.
    pub open spec fn first_line_reach(self) -> int {
        GROUP_H_PADDING + self.accurate_distance_label_1.0 + 5 + INPUT_WIDTH + 5
            + SELECTOR_WIDTH + 5
    }

    /// The height of the tab: both lines with the padding between them
    /// and around them.
    pub open spec fn total_height(self) -> int {
        self.first_line_height() + self.second_line_height() + LINE_V_PADDING + 2
            * GROUP_V_PADDING
    }

    /// Whether no label has a negative extent or one beyond `MAX_EXTENT`.
    pub open spec fn bounded(self) -> bool {
        &&& self.accurate_distance_label_1.bounded()
        &&& self.accurate_distance_label_2.bounded()
        &&& self.fov_output_label.bounded()
    }

    /// The extent of the whole tab: the wider line, and both lines with the
    /// padding between them and around them.
    pub open spec fn total_size(self) -> Size {
        Size(
            larger(self.first_line_width(), self.second_line_width()) as i32,
            self.total_height() as i32,
        )
    }
}

impl<'a> LayoutGen<'a> for FocusedMetrics {
    type Arguments = ();

    type Layout = FocusedLayout;

    /// No label has a negative extent, and the widths of the lines, the
    /// height of the tab and the place of the last label can be stored.
    /// Every coordinate in the tab is then within these.
    open spec fn fits(&self, arguments: ()) -> bool {
        &&& self.accurate_distance_label_1.measured()
        &&& self.accurate_distance_label_2.measured()
        &&& self.fov_output_label.measured()
        &&& fits_i32(self.first_line_width())
        &&& fits_i32(self.first_line_reach())
        &&& fits_i32(self.second_line_width())
        &&& fits_i32(self.total_height())
    }

    /// Each line starts at the left padding with its first label and goes on
    /// to the right. Fields and selector have their fixed widths and the
    /// height of their line. The second line starts a line padding below the
    /// first label. The group covers the whole tab.
    open spec fn layout(&self, arguments: ()) -> FocusedLayout {
        let first_field = Size(INPUT_WIDTH, self.first_line_height() as i32);
        let first_selector = Size(SELECTOR_WIDTH, self.first_line_height() as i32);
        let second_field = Size(INPUT_WIDTH, self.second_line_height() as i32);
        let accurate_distance_label_1 = Rect(
            Position(GROUP_H_PADDING, GROUP_V_PADDING),
            self.accurate_distance_label_1,
        );
        let accurate_distance_input = accurate_distance_label_1.beside(5, first_field);
        let accurate_distance_unit_selector = accurate_distance_input.beside(5, first_selector);
        let accurate_distance_label_2 = accurate_distance_unit_selector.beside(
            5,
            self.accurate_distance_label_2,
        );
        let fov_output_label = accurate_distance_label_1.below(
            LINE_V_PADDING as int,
            self.fov_output_label,
        );
        let fov_output = fov_output_label.beside(5, second_field);
        FocusedLayout {
            total_size: self.total_size(),
            containing_group: Rect(Position(0, 0), self.total_size()),
            accurate_distance_label_1,
            accurate_distance_input,
            accurate_distance_unit_selector,
            accurate_distance_label_2,
            fov_output_label,
            fov_output,
        }
    }

    fn generate_layout(&self, arguments: ()) -> (r: FocusedLayout) {
        let num_lines: i32 = 2;

        let mut width_l1: i32 = GROUP_H_PADDING * 2;
        let height_l1: i32;

        let accurate_distance_label_1 = Rect(
            Position(GROUP_H_PADDING, GROUP_V_PADDING),
            self.accurate_distance_label_1,
        );
        height_l1 = accurate_distance_label_1.h() + ADDED_HEIGHT;
        width_l1 = width_l1 + accurate_distance_label_1.w();

        let accurate_distance_input = Rect(
            accurate_distance_label_1.to_right(5),
            Size(INPUT_WIDTH, height_l1),
        );
        width_l1 = width_l1 + accurate_distance_input.w();

        let accurate_distance_unit_selector = Rect(
            accurate_distance_input.to_right(5),
            Size(SELECTOR_WIDTH, height_l1),
        );
        width_l1 = width_l1 + accurate_distance_unit_selector.w();

        let accurate_distance_label_2 = Rect(
            accurate_distance_unit_selector.to_right(5),
            self.accurate_distance_label_2,
        );
        width_l1 = width_l1 + accurate_distance_label_2.w();

        let mut width_l2: i32 = GROUP_H_PADDING * 2;
        let height_l2: i32;

        let fov_output_label = Rect(
            accurate_distance_label_1.to_bottom(LINE_V_PADDING),
            self.fov_output_label,
        );
        height_l2 = fov_output_label.h() + ADDED_HEIGHT;
        width_l2 = width_l2 + fov_output_label.w();

        let fov_output = Rect(fov_output_label.to_right(5), Size(INPUT_WIDTH, height_l2));
        width_l2 = width_l2 + fov_output.w();

        let total_width = larger_of(width_l1, width_l2);
        let total_height = height_l1 + height_l2 + LINE_V_PADDING * (num_lines - 1)
            + GROUP_V_PADDING * 2;
        let total_size = Size(total_width, total_height);
        let containing_group = Rect(Position(0, 0), total_size);
        FocusedLayout {
            total_size,
            containing_group,
            accurate_distance_label_1,
            accurate_distance_input,
            accurate_distance_unit_selector,
            accurate_distance_label_2,
            fov_output_label,
            fov_output,
        }
    }
}

} // verus!
