//! The panel that takes the monitor: a line with width and height, a line
//! with diagonal and aspect ratio, and a line with the viewing distance.

use crate::layout::{fits_i32, LayoutGen, Position, Rect, Size, MAX_EXTENT};
use crate::ui::{
    larger, larger_of, ADDED_HEIGHT, GROUP_H_PADDING, GROUP_V_PADDING, INPUT_WIDTH,
    LINE_V_PADDING, SELECTOR_WIDTH,
};
use vstd::prelude::*;

verus! {

/// The width of a field that holds one side of the aspect ratio.
pub const ASPECT_INPUT_WIDTH: i32 = 65;

/// Where the parts of the panel go, and how large the panel is.
#[derive(Copy, Clone, Debug)]
pub struct MonitorPropertiesLayout {
    pub total_size: Size,
    pub width_label: Rect,
    pub width_input: Rect,
    pub width_unit_selector: Rect,
    pub height_label: Rect,
    pub height_input: Rect,
    pub height_unit_selector: Rect,
    pub diagonal_label: Rect,
    pub diagonal_input: Rect,
    pub diagonal_unit_selector: Rect,
    pub aspect_label: Rect,
    pub aspect_n_input: Rect,
    pub aspect_sep: Rect,
    pub aspect_d_input: Rect,
    pub distance_label: Rect,
    pub distance_input: Rect,
    pub distance_unit_selector: Rect,
}

/// The extents of the panel's labels as measured on screen, and the width
/// that the first unit selector has at the time.
#[derive(Copy, Clone, Debug)]
pub struct MonitorPropertiesMetrics {
    pub width_label: Size,
    pub height_label: Size,
    pub diagonal_label: Size,
    pub aspect_label: Size,
    pub aspect_sep: Size,
    pub distance_label: Size,
    pub width_unit_selector_width: i32,
}

impl MonitorPropertiesMetrics {
    /// The height of the first line: that of its first label and a margin.
    pub open spec fn first_line_height(self) -> int {
        self.width_label.1 + ADDED_HEIGHT
    }

    /// The height of the second line.
    pub open spec fn second_line_height(self) -> int {
        self.diagonal_label.1 + ADDED_HEIGHT
    }

    /// The height of the third line.
    pub open spec fn third_line_height(self) -> int {
        self.distance_label.1 + ADDED_HEIGHT
    }

    /// The width of the first line: the padding on both sides, the two
    /// labels, and each field and selector with the gap before it. The first
    /// selector counts with the width it has at the time, not with the one
    /// it is given.
    pub open spec fn first_line_width(self) -> int {
        2 * GROUP_H_PADDING + self.width_label.0 + (INPUT_WIDTH + 5) + (
        self.width_unit_selector_width + 5) + self.height_label.0 + (INPUT_WIDTH + 5) + (
        SELECTOR_WIDTH + 5)
    }

    /// The width of the second line: the padding on both sides, the three
    /// labels, and each field and selector with the gap before it.
    pub open spec fn second_line_width(self) -> int {
        2 * GROUP_H_PADDING + self.diagonal_label.0 + (INPUT_WIDTH + 5) + (SELECTOR_WIDTH + 5)
            + self.aspect_label.0 + (ASPECT_INPUT_WIDTH + 5) + (self.aspect_sep.0 + 1) + (
        ASPECT_INPUT_WIDTH + 1)
    }

    /// The width of the third line: the padding on both sides, the label,
    /// and field and selector with the gap before each.
    pub open spec fn third_line_width(self) -> int {
        2 * GROUP_H_PADDING + self.distance_label.0 + (INPUT_WIDTH + 5) + (SELECTOR_WIDTH + 5)
    }
    /// The height of the panel: the three lines with the padding between
    /// them and around them.
    pub open spec fn total_height(self) -> int {
        self.first_line_height() + self.second_line_height() + self.third_line_height() + 2
            * LINE_V_PADDING + 2 * GROUP_V_PADDING
    }

    /// Whether no label has a negative extent or one beyond `MAX_EXTENT`,
    /// nor the selector such a width.
    pub open spec fn bounded(self) -> bool {
        &&& self.width_label.bounded()
        &&& self.height_label.bounded()
        &&& self.diagonal_label.bounded()
        &&& self.aspect_label.bounded()
        &&& self.aspect_sep.bounded()
        &&& self.distance_label.bounded()
        &&& 0 <= self.width_unit_selector_width <= MAX_EXTENT
    }
}

impl<'a> LayoutGen<'a> for MonitorPropertiesMetrics {
    type Arguments = ();

    type Layout = MonitorPropertiesLayout;

    /// No label has a negative extent, nor has the selector a negative
    /// width, and the widths of the lines and the height of the panel can be
    /// stored. Every coordinate in the panel is then within these.
    open spec fn fits(&self, arguments: ()) -> bool {
        &&& self.width_label.measured()
        &&& self.height_label.measured()
        &&& self.diagonal_label.measured()
        &&& self.aspect_label.measured()
        &&& self.aspect_sep.measured()
        &&& self.distance_label.measured()
        &&& 0 <= self.width_unit_selector_width
        &&& fits_i32(self.first_line_width())
        &&& fits_i32(self.second_line_width())
        &&& fits_i32(self.third_line_width())
        &&& fits_i32(self.total_height())
    }

    /// Each line starts at the left padding with its first label and goes on
    /// to the right; a label that follows a selector joins it without a gap,
    /// and the separator of the aspect ratio keeps one pixel to both sides.
    /// Fields and selectors have their fixed widths and the height of their
    /// line. Each line starts a line padding below the first label of the
    /// line before. The panel is as wide as its widest line and as high as
    /// the three lines with the padding between and around them.
    open spec fn layout(&self, arguments: ()) -> MonitorPropertiesLayout {
        let first = self.first_line_height() as i32;
        let second = self.second_line_height() as i32;
        let third = self.third_line_height() as i32;
        let width_label = Rect(Position(GROUP_H_PADDING, GROUP_V_PADDING), self.width_label);
        let width_input = width_label.beside(5, Size(INPUT_WIDTH, first));
        let width_unit_selector = width_input.beside(5, Size(SELECTOR_WIDTH, first));
        let height_label = width_unit_selector.beside(0, self.height_label);
        let height_input = height_label.beside(5, Size(INPUT_WIDTH, first));
        let height_unit_selector = height_input.beside(5, Size(SELECTOR_WIDTH, first));
        let diagonal_label = width_label.below(LINE_V_PADDING as int, self.diagonal_label);
        let diagonal_input = diagonal_label.beside(5, Size(INPUT_WIDTH, second));
        let diagonal_unit_selector = diagonal_input.beside(5, Size(SELECTOR_WIDTH, second));
        let aspect_label = diagonal_unit_selector.beside(0, self.aspect_label);
        let aspect_n_input = aspect_label.beside(5, Size(ASPECT_INPUT_WIDTH, second));
        let aspect_sep = aspect_n_input.beside(1, self.aspect_sep);
        let aspect_d_input = aspect_sep.beside(1, Size(ASPECT_INPUT_WIDTH, second));
        let distance_label = diagonal_label.below(LINE_V_PADDING as int, self.distance_label);
        let distance_input = distance_label.beside(5, Size(INPUT_WIDTH, third));
        let distance_unit_selector = distance_input.beside(5, Size(SELECTOR_WIDTH, third));
        MonitorPropertiesLayout {
            total_size: Size(
                larger(
                    larger(self.first_line_width(), self.second_line_width()),
                    self.third_line_width(),
                ) as i32,
                self.total_height() as i32,
            ),
            width_label,
            width_input,
            width_unit_selector,
            height_label,
            height_input,
            height_unit_selector,
            diagonal_label,
            diagonal_input,
            diagonal_unit_selector,
            aspect_label,
            aspect_n_input,
            aspect_sep,
            aspect_d_input,
            distance_label,
            distance_input,
            distance_unit_selector,
        }
    }

    fn generate_layout(&self, arguments: ()) -> (r: MonitorPropertiesLayout) {
        let num_lines: i32 = 3;

        let height_l1: i32;
        // Start out with this to include padding.
        let mut width_l1: i32 = GROUP_H_PADDING * 2;

        let width_label = Rect(Position(GROUP_H_PADDING, GROUP_V_PADDING), self.width_label);
        height_l1 = width_label.h() + ADDED_HEIGHT;
        width_l1 = width_l1 + width_label.w();

        let width_input = Rect(width_label.to_right(5), Size(INPUT_WIDTH, height_l1));
        width_l1 = width_l1 + (width_input.w() + 5);

        let width_unit_selector = Rect(width_input.to_right(5), Size(SELECTOR_WIDTH, height_l1));
        width_l1 = width_l1 + (self.width_unit_selector_width + 5);

        let height_label = Rect(width_unit_selector.to_right(0), self.height_label);
        width_l1 = width_l1 + height_label.w();

        let height_input = Rect(height_label.to_right(5), Size(INPUT_WIDTH, height_l1));
        width_l1 = width_l1 + (height_input.w() + 5);

        let height_unit_selector = Rect(
            height_input.to_right(5),
            Size(SELECTOR_WIDTH, height_l1),
        );
        width_l1 = width_l1 + (height_unit_selector.w() + 5);

        let height_l2: i32;
        let mut width_l2: i32 = GROUP_H_PADDING * 2;

        let diagonal_label = Rect(width_label.to_bottom(LINE_V_PADDING), self.diagonal_label);
        height_l2 = diagonal_label.h() + ADDED_HEIGHT;
        width_l2 = width_l2 + diagonal_label.w();

        let diagonal_input = Rect(diagonal_label.to_right(5), Size(INPUT_WIDTH, height_l2));
        width_l2 = width_l2 + (diagonal_input.w() + 5);

        let diagonal_unit_selector = Rect(
            diagonal_input.to_right(5),
            Size(SELECTOR_WIDTH, height_l2),
        );
        width_l2 = width_l2 + (diagonal_unit_selector.w() + 5);

        let aspect_label = Rect(diagonal_unit_selector.to_right(0), self.aspect_label);
        width_l2 = width_l2 + aspect_label.w();

        let aspect_n_input = Rect(aspect_label.to_right(5), Size(ASPECT_INPUT_WIDTH, height_l2));
        width_l2 = width_l2 + (aspect_n_input.w() + 5);

        let aspect_sep = Rect(aspect_n_input.to_right(1), self.aspect_sep);
        width_l2 = width_l2 + (aspect_sep.w() + 1);

        let aspect_d_input = Rect(aspect_sep.to_right(1), Size(ASPECT_INPUT_WIDTH, height_l2));
        width_l2 = width_l2 + (aspect_d_input.w() + 1);

        let height_l3: i32;
        let mut width_l3: i32 = GROUP_H_PADDING * 2;

        let distance_label = Rect(
            diagonal_label.to_bottom(LINE_V_PADDING),
            self.distance_label,
        );
        height_l3 = distance_label.h() + ADDED_HEIGHT;
        width_l3 = width_l3 + distance_label.w();

        let distance_input = Rect(distance_label.to_right(5), Size(INPUT_WIDTH, height_l3));
        width_l3 = width_l3 + (distance_input.w() + 5);

        let distance_unit_selector = Rect(
            distance_input.to_right(5),
            Size(SELECTOR_WIDTH, height_l3),
        );
        width_l3 = width_l3 + (distance_unit_selector.w() + 5);

        let total_width = larger_of(larger_of(width_l1, width_l2), width_l3);
        let total_height = height_l1 + height_l2 + height_l3 + LINE_V_PADDING * (num_lines - 1)
            + GROUP_V_PADDING * 2;
        MonitorPropertiesLayout {
            total_size: Size(total_width, total_height),
            width_label,
            width_input,
            width_unit_selector,
            height_label,
            height_input,
            height_unit_selector,
            diagonal_label,
            diagonal_input,
            diagonal_unit_selector,
            aspect_label,
            aspect_n_input,
            aspect_sep,
            aspect_d_input,
            distance_label,
            distance_input,
            distance_unit_selector,
        }
    }
}

} // verus!
