//! The output tab for the mode in which the screen is a window into the
//! scene: a line with the field of view, and a line that says how far to
//! move the camera back.

use crate::layout::{fits_i32, LayoutGen, Position, Rect, Size};
use crate::ui::{
    larger, larger_of, ADDED_HEIGHT, GROUP_H_PADDING, GROUP_V_PADDING, INPUT_WIDTH,
    LINE_V_PADDING, SELECTOR_WIDTH,
};
use vstd::prelude::*;

verus! {

/// Where the parts of the tab go, and how large the tab is.
#[derive(Copy, Clone, Debug)]
pub struct PortalLikeLayout {
    pub total_size: Size,
    pub containing_group: Rect,
    pub fov_label: Rect,
    pub fov_output: Rect,
    pub move_label_1: Rect,
    pub move_output: Rect,
    pub move_unit_selector: Rect,
    pub move_label_2: Rect,
    pub move_units_output: Rect,
    pub move_label_3: Rect,
}

/// The extents of the tab's labels as measured on screen.
#[derive(Copy, Clone, Debug)]
pub struct PortalLikeMetrics {
    pub fov_label: Size,
    pub move_label_1: Size,
    pub move_label_2: Size,
    pub move_label_3: Size,
}

impl PortalLikeMetrics {
    /// The height of the first line: that of its label and a margin.
    pub open spec fn first_line_height(self) -> int {
        self.fov_label.1 + ADDED_HEIGHT
    }

    /// The height of the second line.
    pub open spec fn second_line_height(self) -> int {
        self.move_label_1.1 + ADDED_HEIGHT
    }

    /// The width of the first line: the padding on both sides and the widths
    /// of its parts. The gaps between the parts are not counted.
    pub open spec fn first_line_width(self) -> int {
        2 * GROUP_H_PADDING + self.fov_label.0 + INPUT_WIDTH
    }

    /// The width of the second line, counted as that of the first.
    pub open spec fn second_line_width(self) -> int {
        2 * GROUP_H_PADDING + self.move_label_1.0 + INPUT_WIDTH + SELECTOR_WIDTH
            + self.move_label_2.0 + INPUT_WIDTH + self.move_label_3.0
    }

    /// How far to the right the last label of the second line starts.
    pub open spec fn second_line_reach(self) -> int {
        GROUP_H_PADDING + self.move_label_1.0 + 5 + INPUT_WIDTH + 5 + SELECTOR_WIDTH + 5
            + self.move_label_2.0 + 2 + INPUT_WIDTH + 5
    }

    /// The height of the tab: both lines with the padding between them
    /// and around them.
    pub open spec fn total_height(self) -> int {
        self.first_line_height() + self.second_line_height() + LINE_V_PADDING + 2
            * GROUP_V_PADDING
    }

    /// Whether no label has a negative extent or one beyond `MAX_EXTENT`.
    pub open spec fn bounded(self) -> bool {
        &&& self.fov_label.bounded()
        &&& self.move_label_1.bounded()
        &&& self.move_label_2.bounded()
        &&& self.move_label_3.bounded()
    }

    /// The extent of the whole tab: the wider line, and both lines with the
    /// padding between them and around them.
    pub open spec fn total_size(self) -> Size {
        Size(
            larger(self.first_line_width(), self.second_line_width()) as i32,
            self.total_height() as i32,
        )
    }
}

impl<'a> LayoutGen<'a> for PortalLikeMetrics {
    type Arguments = ();

    type Layout = PortalLikeLayout;

    /// No label has a negative extent, and the widths of the lines, the
    /// height of the tab and the place of the last label can be stored.
    /// Every coordinate in the tab is then within these.
    open spec fn fits(&self, arguments: ()) -> bool {
        &&& self.fov_label.measured()
        &&& self.move_label_1.measured()
        &&& self.move_label_2.measured()
        &&& self.move_label_3.measured()
        &&& fits_i32(self.first_line_width())
        &&& fits_i32(self.second_line_width())
        &&& fits_i32(self.second_line_reach())
        &&& fits_i32(self.total_height())
    }

    /// Each line starts at the left padding with its first label and goes on
    /// to the right. Fields and selector have their fixed widths and the
    /// height of their line. The second line starts a line padding below the
    /// first label. The group covers the whole tab.
    open spec fn layout(&self, arguments: ()) -> PortalLikeLayout {
        let first_field = Size(INPUT_WIDTH, self.first_line_height() as i32);
        let second_field = Size(INPUT_WIDTH, self.second_line_height() as i32);
        let second_selector = Size(SELECTOR_WIDTH, self.second_line_height() as i32);
        let fov_label = Rect(Position(GROUP_H_PADDING, GROUP_V_PADDING), self.fov_label);
        let fov_output = fov_label.beside(5, first_field);
        let move_label_1 = fov_label.below(LINE_V_PADDING as int, self.move_label_1);
        let move_output = move_label_1.beside(5, second_field);
        let move_unit_selector = move_output.beside(5, second_selector);
        let move_label_2 = move_unit_selector.beside(5, self.move_label_2);
        let move_units_output = move_label_2.beside(2, second_field);
        let move_label_3 = move_units_output.beside(5, self.move_label_3);
        PortalLikeLayout {
            total_size: self.total_size(),
            containing_group: Rect(Position(0, 0), self.total_size()),
            fov_label,
            fov_output,
            move_label_1,
            move_output,
            move_unit_selector,
            move_label_2,
            move_units_output,
            move_label_3,
        }
    }

    fn generate_layout(&self, arguments: ()) -> (r: PortalLikeLayout) {
        let num_lines: i32 = 2;

        let height_l1: i32;
        let mut width_l1: i32 = GROUP_H_PADDING * 2;

        let fov_label = Rect(Position(GROUP_H_PADDING, GROUP_V_PADDING), self.fov_label);
        height_l1 = fov_label.h() + ADDED_HEIGHT;
        width_l1 = width_l1 + fov_label.w();

        let fov_output = Rect(fov_label.to_right(5), Size(INPUT_WIDTH, height_l1));
        width_l1 = width_l1 + fov_output.w();

        let height_l2: i32;
        let mut width_l2: i32 = GROUP_H_PADDING * 2;
        let move_label_1 = Rect(fov_label.to_bottom(LINE_V_PADDING), self.move_label_1);
        height_l2 = move_label_1.h() + ADDED_HEIGHT;
        width_l2 = width_l2 + move_label_1.w();

        let move_output = Rect(move_label_1.to_right(5), Size(INPUT_WIDTH, height_l2));
        width_l2 = width_l2 + move_output.w();

        let move_unit_selector = Rect(move_output.to_right(5), Size(SELECTOR_WIDTH, height_l2));
        width_l2 = width_l2 + move_unit_selector.w();

        let move_label_2 = Rect(move_unit_selector.to_right(5), self.move_label_2);
        width_l2 = width_l2 + move_label_2.w();

        let move_units_output = Rect(move_label_2.to_right(2), Size(INPUT_WIDTH, height_l2));
        width_l2 = width_l2 + move_units_output.w();

        let move_label_3 = Rect(move_units_output.to_right(5), self.move_label_3);
        width_l2 = width_l2 + move_label_3.w();

        let total_width = larger_of(width_l1, width_l2);
        let total_height = height_l1 + height_l2 + LINE_V_PADDING * (num_lines - 1)
            + GROUP_V_PADDING * 2;

        let total_size = Size(total_width, total_height);
        PortalLikeLayout {
            total_size,
            containing_group: Rect(Position(0, 0), total_size),
            fov_label,
            fov_output,
            move_label_1,
            move_output,
            move_unit_selector,
            move_label_2,
            move_units_output,
            move_label_3,
        }
    }
}

} // verus!
