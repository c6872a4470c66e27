//! The tabs that hold the two output modes, one behind the other.

use crate::focused::FocusedLayout;
use crate::layout::{fits_i32, LayoutGen, Position, Rect, Size};
use crate::portal_like::PortalLikeLayout;
use crate::ui::{larger, larger_of, GROUP_H_PADDING, GROUP_V_PADDING};
use vstd::prelude::*;

verus! {

/// The height of the strip in which the tabs' names stand.
pub const TABS_HEADER_HEIGHT: i32 = 21;

/// Where the tabs and their two pages go, and how large the panel is.
#[derive(Copy, Clone, Debug)]
pub struct OutputTabsLayout {
    pub total_size: Size,
    pub tabs: Rect,
    pub portal_like: Rect,
    pub focused: Rect,
}

/// The tabs, which take their extent from their pages and measure nothing
/// themselves.
#[derive(Copy, Clone, Debug)]
pub struct OutputTabsMetrics;

impl OutputTabsMetrics {
    /// The width of the tabs: that of the wider page, or what is left of
    /// `fill_width` within the padding, where that is more.
    pub open spec fn tabs_width(portal_like: Size, focused: Size, fill_width: int) -> int {
        larger(larger(portal_like.0 as int, focused.0 as int), fill_width - 2 * GROUP_H_PADDING)
    }

    /// The height of the tabs: that of the higher page under the header.
    pub open spec fn tabs_height(portal_like: Size, focused: Size) -> int {
        larger(portal_like.1 as int, focused.1 as int) + TABS_HEADER_HEIGHT
    }
}

impl<'a> LayoutGen<'a> for OutputTabsMetrics {
    /// The layouts of the two pages, and the width that the panel is to fill.
    type Arguments = (&'a PortalLikeLayout, &'a FocusedLayout, i32);

    type Layout = OutputTabsLayout;

    /// The tabs and the panel around them have extents that can be stored.
    open spec fn fits(&self, arguments: Self::Arguments) -> bool {
        let portal_like = arguments.0.total_size;
        let focused = arguments.1.total_size;
        let fill_width = arguments.2 as int;
        &&& fits_i32(fill_width - 2 * GROUP_H_PADDING)
        &&& fits_i32(Self::tabs_height(portal_like, focused))
        &&& fits_i32(2 * GROUP_H_PADDING + Self::tabs_width(portal_like, focused, fill_width))
        &&& fits_i32(2 * GROUP_V_PADDING + Self::tabs_height(portal_like, focused))
    }

    /// The tabs stand inside the padding. Both pages start under the header
    /// at the left edge of the tabs, each with its own extent. The panel is
    /// the tabs with the padding on all four sides.
    open spec fn layout(&self, arguments: Self::Arguments) -> OutputTabsLayout {
        let portal_like = arguments.0.total_size;
        let focused = arguments.1.total_size;
        let width = Self::tabs_width(portal_like, focused, arguments.2 as int);
        let height = Self::tabs_height(portal_like, focused);
        let page = Position(GROUP_H_PADDING, (GROUP_V_PADDING + TABS_HEADER_HEIGHT) as i32);
        OutputTabsLayout {
            total_size: Size(
                (2 * GROUP_H_PADDING + width) as i32,
                (2 * GROUP_V_PADDING + height) as i32,
            ),
            tabs: Rect(
                Position(GROUP_H_PADDING, GROUP_V_PADDING),
                Size(width as i32, height as i32),
            ),
            portal_like: Rect(page, portal_like),
            focused: Rect(page, focused),
        }
    }

    fn generate_layout(&self, arguments: Self::Arguments) -> (r: OutputTabsLayout) {
        let (portal_like_layout, focused_layout, fill_width) = arguments;

        let Size(pl_w, pl_h) = portal_like_layout.total_size;
        let Size(fo_w, fo_h) = focused_layout.total_size;
        let aggregate_width = larger_of(
            larger_of(pl_w, fo_w),
            fill_width - GROUP_H_PADDING * 2,
        );
        let aggregate_height = larger_of(pl_h, fo_h) + TABS_HEADER_HEIGHT;

        let tabs = Rect(
            Position(GROUP_H_PADDING, GROUP_V_PADDING),
            Size(aggregate_width, aggregate_height),
        );
        let portal_like = Rect(
            tabs.pos() + Position(0, TABS_HEADER_HEIGHT),
            portal_like_layout.total_size,
        );
        let focused = Rect(
            tabs.pos() + Position(0, TABS_HEADER_HEIGHT),
            focused_layout.total_size,
        );

        let total_width = GROUP_H_PADDING * 2 + tabs.w();
        let total_height = GROUP_V_PADDING * 2 + tabs.h();
        let total_size = Size(total_width, total_height);

        OutputTabsLayout { total_size, tabs, portal_like, focused }
    }
}

} // verus!
