//! The display tree: plain values from which the page is drawn.

use crate::render::{
    classify_total, display_name, display_points, element_image, get_element_name, get_image,
    image_class, image_source, image_source_path, image_style_class, points_label, total_class,
    ImageClass, TooltipContent, TooltipContentView, TotalClass,
};
use crate::roster::{
    compute_total_points, element_points, get_element_points, total_points, Roster, RosterElement,
};
use crate::text::{decimal, decimal_text, signed_decimal, signed_decimal_text};
use vstd::prelude::*;

verus! {

/// The line above the elements that gives the total.
#[derive(Debug, PartialEq, Eq)]
pub struct Banner {
    pub class: TotalClass,
    pub text: String,
}

/// A banner with its text as a sequence of characters.
pub struct BannerView {
    pub class: TotalClass,
    pub text: Seq<char>,
}

impl View for Banner {
    type V = BannerView;

    open spec fn view(&self) -> BannerView {
        BannerView { class: self.class, text: self.text@ }
    }
}

/// The area of one element. The pointer's events over it speak of `index`.
#[derive(Debug, PartialEq, Eq)]
pub struct ElementCell {
    pub index: usize,
    pub name: String,
    pub image_source: String,
    pub image_class: ImageClass,
    pub points_label: String,
}

/// A cell with its texts as sequences of characters.
pub struct ElementCellView {
    pub index: int,
    pub name: Seq<char>,
    pub image_source: Seq<char>,
    pub image_class: ImageClass,
    pub points_label: Seq<char>,
}

impl View for ElementCell {
    type V = ElementCellView;

    open spec fn view(&self) -> ElementCellView {
        ElementCellView {
            index: self.index as int,
            name: self.name@,
            image_source: self.image_source@,
            image_class: self.image_class,
            points_label: self.points_label@,
        }
    }
}

/// The tooltip as it lies over the elements, at `x` and `y` from the left and
/// the top.
#[derive(Debug, PartialEq, Eq)]
pub struct Overlay {
    pub x: i32,
    pub y: i32,
    pub style: String,
    pub content: Option<TooltipContent>,
}

/// An overlay with its texts as sequences of characters.
pub struct OverlayView {
    pub x: int,
    pub y: int,
    pub style: Seq<char>,
    pub content: Option<TooltipContentView>,
}

impl View for Overlay {
    type V = OverlayView;

    open spec fn view(&self) -> OverlayView {
        OverlayView {
            x: self.x as int,
            y: self.y as int,
            style: self.style@,
            content: content_view(self.content),
        }
    }
}

/// All that the canvas shows. There is an overlay only while the tooltip is
/// visible.
#[derive(Debug, PartialEq, Eq)]
pub struct DisplayTree {
    pub banner: Banner,
    pub cells: Vec<ElementCell>,
    pub tooltip: Option<Overlay>,
}

/// A display tree with its parts as their views.
pub struct DisplayTreeView {
    pub banner: BannerView,
    pub cells: Seq<ElementCellView>,
    pub tooltip: Option<OverlayView>,
}

impl View for DisplayTree {
    type V = DisplayTreeView;

    open spec fn view(&self) -> DisplayTreeView {
        DisplayTreeView {
            banner: self.banner@,
            cells: cells_view(self.cells@),
            tooltip: match self.tooltip {
                Some(overlay) => Some(overlay@),
                None => None,
            },
        }
    }
}

/// A tooltip's content, where there is one, as sequences of characters.
pub open spec fn content_view(content: Option<TooltipContent>) -> Option<TooltipContentView> {
    match content {
        Some(content) => Some(content@),
        None => None,
    }
}

/// Cells as their views, one for one.
pub open spec fn cells_view(cells: Seq<ElementCell>) -> Seq<ElementCellView> {
    cells.map_values(|cell: ElementCell| cell@)
}

/// The style class of the banner.
pub open spec fn banner_class_name(class: TotalClass) -> Seq<char> {
    match class {
        TotalClass::Normal => "total-points"@,
        TotalClass::OverLimit => "total-points over-limit"@,
    }
}

/// The style class of a picture.
pub open spec fn image_class_name(class: ImageClass) -> Seq<char> {
    match class {
        ImageClass::Inverted => "inverted-roster-image"@,
        ImageClass::Normal => "roster-image"@,
    }
}

impl TotalClass {
    /// The name of the banner's style class.
    pub fn css_class(&self) -> (name: &'static str)
        ensures
            name@ == banner_class_name(*self),
    {
        match self {
            TotalClass::Normal => "total-points",
            TotalClass::OverLimit => "total-points over-limit",
        }
    }
}

impl ImageClass {
    /// The name of the picture's style class.
    pub fn css_class(&self) -> (name: &'static str)
        ensures
            name@ == image_class_name(*self),
    {
        match self {
            ImageClass::Inverted => "inverted-roster-image",
            ImageClass::Normal => "roster-image",
        }
    }
}

/// The banner over the given elements.
pub open spec fn banner_for(elements: Seq<RosterElement>) -> BannerView {
    BannerView {
        class: total_class(total_points(elements)),
        text: "Total Points: "@ + decimal(total_points(elements)),
    }
}

/// The cell of the element that stands at `index`.
pub open spec fn cell_for(elem: RosterElement, index: int, is_dark_mode: bool) -> ElementCellView {
    ElementCellView {
        index: index,
        name: display_name(elem),
        image_source: image_source(element_image(elem)),
        image_class: image_class(element_image(elem), is_dark_mode),
        points_label: points_label(element_points(elem)),
    }
}

/// One cell for each element, in the roster's order.
pub open spec fn cells_for(elements: Seq<RosterElement>, is_dark_mode: bool) -> Seq<
    ElementCellView,
> {
    Seq::new(elements.len(), |i: int| cell_for(elements[i], i, is_dark_mode))
}

/// The style that puts the tooltip at a position.
pub open spec fn tooltip_style(x: int, y: int) -> Seq<char> {
    "left: "@ + signed_decimal(x) + "px; top: "@ + signed_decimal(y) + "px;"@
}

/// The overlay of a tooltip: none while it is hidden.
pub open spec fn overlay_for(
    visible: bool,
    content: Option<TooltipContentView>,
    x: int,
    y: int,
) -> Option<OverlayView> {
    if visible {
        Some(OverlayView { x: x, y: y, style: tooltip_style(x, y), content: content })
    } else {
        None
    }
}

/// Draws the banner: the total and whether it is over the limit.
pub fn render_banner(roster: &Roster) -> (banner: Banner)
    ensures
        banner@ == banner_for(roster.elements@),
{
    let total: u128 = compute_total_points(roster);
    Banner {
        class: classify_total(total),
        text: String::from_str("Total Points: ").concat(decimal_text(total).as_str()),
    }
}

/// Draws the cell of one element.
pub fn render_cell(elem: &RosterElement, index: usize, is_dark_mode: bool) -> (cell: ElementCell)
    ensures
        cell@ == cell_for(*elem, index as int, is_dark_mode),
{
    let image = get_image(elem);
    ElementCell {
        index: index,
        name: get_element_name(elem),
        image_source: image_source_path(&image),
        image_class: image_style_class(&image, is_dark_mode),
        points_label: display_points(get_element_points(elem)),
    }
}

/// Draws the cells of a roster.
pub fn render_cells(roster: &Roster, is_dark_mode: bool) -> (cells: Vec<ElementCell>)
    ensures
        cells@.len() == roster.elements@.len(),
        cells_view(cells@) == cells_for(roster.elements@, is_dark_mode),
{
    let mut cells: Vec<ElementCell> = Vec::new();
    let mut i: usize = 0;
    while i < roster.elements.len()
        invariant
            i <= roster.elements.len(),
            cells@.len() == i,
            forall|k: int|
                0 <= k < i ==> (#[trigger] cells@[k])@ == cell_for(
                    roster.elements@[k],
                    k,
                    is_dark_mode,
                ),
        decreases roster.elements.len() - i,
    {
        let cell = render_cell(&roster.elements[i], i, is_dark_mode);
        cells.push(cell);
        i = i + 1;
    }
    proof {
        assert(cells_view(cells@) =~= cells_for(roster.elements@, is_dark_mode));
    }
    cells
}

/// Writes the style that puts the tooltip at a position.
pub fn format_tooltip_style(x: i32, y: i32) -> (style: String)
    ensures
        style@ == tooltip_style(x as int, y as int),
{
    String::from_str("left: ").concat(signed_decimal_text(x).as_str()).concat("px; top: ").concat(
        signed_decimal_text(y).as_str(),
    ).concat("px;")
}

/// Draws the tooltip's overlay, if the tooltip is visible.
pub fn render_overlay(visible: bool, content: &Option<TooltipContent>, x: i32, y: i32) -> (overlay:
    Option<Overlay>)
    ensures
        match overlay {
            Some(overlay) => Some(overlay@),
            None => None,
        } == overlay_for(visible, content_view(*content), x as int, y as int),
{
    if visible {
        let copy = match content {
            Some(content) => Some(content.clone()),
            None => None,
        };
        Some(Overlay { x: x, y: y, style: format_tooltip_style(x, y), content: copy })
    } else {
        None
    }
}

} // verus!
