//! What the canvas shows for a roster: a banner with the total, one cell for
//! each element, and the tooltip over them.

use crate::roster::RosterElement;
use crate::text::{decimal, decimal_text};
use vstd::prelude::*;

verus! {

/// The most points that an army may cost.
pub const POINT_LIMIT: u128 = 60;

/// How a total stands to the limit.
#[derive(Clone, Copy, Debug, PartialEq, Eq, Structural)]
pub enum TotalClass {
    Normal,
    OverLimit,
}

/// The picture of an element: one of the two that the canvas brings along, or
/// the file that the element names.
#[derive(Debug, PartialEq, Eq)]
pub enum ImageId {
    Character,
    Support,
    Custom(String),
}

/// Whether a picture is shown with its colours inverted.
#[derive(Clone, Copy, Debug, PartialEq, Eq, Structural)]
pub enum ImageClass {
    Inverted,
    Normal,
}

/// The text of a tooltip and the hint below it.
#[derive(Debug, PartialEq, Eq)]
pub struct TooltipContent {
    pub text: String,
    pub hint: String,
}

/// A tooltip's content as two sequences of characters.
pub struct TooltipContentView {
    pub text: Seq<char>,
    pub hint: Seq<char>,
}

impl View for TooltipContent {
    type V = TooltipContentView;

    open spec fn view(&self) -> TooltipContentView {
        TooltipContentView { text: self.text@, hint: self.hint@ }
    }
}

impl Clone for ImageId {
    fn clone(&self) -> (copy: Self)
        ensures
            copy == *self,
    {
        match self {
            ImageId::Character => ImageId::Character,
            ImageId::Support => ImageId::Support,
            ImageId::Custom(file) => ImageId::Custom(file.clone()),
        }
    }
}

impl Clone for TooltipContent {
    fn clone(&self) -> (copy: Self)
        ensures
            copy == *self,
    {
        TooltipContent { text: self.text.clone(), hint: self.hint.clone() }
    }
}

/// The class of a total: over the limit when it exceeds `POINT_LIMIT`.
pub open spec fn total_class(total: nat) -> TotalClass {
    if total > POINT_LIMIT {
        TotalClass::OverLimit
    } else {
        TotalClass::Normal
    }
}

/// Classifies a total. A total of exactly `POINT_LIMIT` is still normal.
pub fn classify_total(total: u128) -> (class: TotalClass)
    ensures
        class == total_class(total as nat),
        class is OverLimit <==> total > 60,
{
    if total > POINT_LIMIT {
        TotalClass::OverLimit
    } else {
        TotalClass::Normal
    }
}

/// What `{:?}` writes for a string.
pub uninterp spec fn debug_text(text: Seq<char>) -> Seq<char>;

/// Formats a string with `{:?}`, that is with std's `Debug` for `str`: the
/// string in double quotes, with escapes for what would not print as it is.
/// The contract only gives the result its name, `debug_text` of the string;
/// nothing is claimed of what that text holds.
#[verifier::external_body]
fn debug_quote(text: &str) -> (quoted: String)
    ensures
        quoted@ == debug_text(text@),
{
    format!("{:?}", text)
}

/// The label of an element, given its name in quotes. A free-form entry shows
/// its own label as it is, and the quoted name plays no part.
pub open spec fn name_label(elem: RosterElement, quoted: Seq<char>) -> Seq<char> {
    match elem {
        RosterElement::ElemCharacter(_) => "Character: "@ + quoted,
        RosterElement::ElemUnit(_) => "Unit: "@ + quoted,
        RosterElement::ElemSupport(_) => "Support: "@ + quoted,
        RosterElement::ElemOther((label, _, _)) => label@,
    }
}

/// The name that is put in quotes for an element's label; empty for a
/// free-form entry.
pub open spec fn quoted_name(elem: RosterElement) -> Seq<char> {
    match elem {
        RosterElement::ElemCharacter(character) => debug_text(character.name@),
        RosterElement::ElemUnit(unit) => debug_text(unit.name@),
        RosterElement::ElemSupport(support) => debug_text(support.name@),
        RosterElement::ElemOther(_) => Seq::empty(),
    }
}

/// The label under which an element is shown: its kind and its name in quotes,
/// or the label of a free-form entry.
pub open spec fn display_name(elem: RosterElement) -> Seq<char> {
    name_label(elem, quoted_name(elem))
}

/// Puts an element's label together from its name in quotes.
pub fn make_name_label(elem: &RosterElement, quoted: &str) -> (label: String)
    ensures
        label@ == name_label(*elem, quoted@),
{
    match elem {
        RosterElement::ElemCharacter(_) => String::from_str("Character: ").concat(quoted),
        RosterElement::ElemUnit(_) => String::from_str("Unit: ").concat(quoted),
        RosterElement::ElemSupport(_) => String::from_str("Support: ").concat(quoted),
        RosterElement::ElemOther((label, _, _)) => label.clone(),
    }
}

/// The label under which an element is shown.
pub fn get_element_name(elem: &RosterElement) -> (label: String)
    ensures
        label@ == display_name(*elem),
{
    let quoted = match elem {
        RosterElement::ElemCharacter(character) => debug_quote(character.name.as_str()),
        RosterElement::ElemUnit(unit) => debug_quote(unit.name.as_str()),
        RosterElement::ElemSupport(support) => debug_quote(support.name.as_str()),
        RosterElement::ElemOther(_) => String::new(),
    };
    make_name_label(elem, quoted.as_str())
}

/// The tooltip for an element with the given label.
pub open spec fn tooltip_for_label(label: Seq<char>) -> TooltipContentView {
    TooltipContentView { text: "Details about: "@ + label, hint: "Double click to delete"@ }
}

/// The tooltip for an element.
pub open spec fn tooltip_content(elem: RosterElement) -> TooltipContentView {
    tooltip_for_label(display_name(elem))
}

/// Builds the tooltip for an element with the given label.
pub fn make_tooltip_content(label: &str) -> (content: TooltipContent)
    ensures
        content@ == tooltip_for_label(label@),
{
    TooltipContent {
        text: String::from_str("Details about: ").concat(label),
        hint: String::from_str("Double click to delete"),
    }
}

/// Builds the tooltip for an element.
pub fn get_tooltip_content(elem: &RosterElement) -> (content: TooltipContent)
    ensures
        content@ == tooltip_content(*elem),
{
    let label = get_element_name(elem);
    make_tooltip_content(label.as_str())
}

/// The text for a number of points: singular for one point only.
pub open spec fn points_label(points: nat) -> Seq<char> {
    if points == 1 {
        "1 Point"@
    } else {
        decimal(points) + " Points"@
    }
}

/// Writes a number of points.
pub fn display_points(points: u32) -> (label: String)
    ensures
        label@ == points_label(points as nat),
{
    if points == 1 {
        String::from_str("1 Point")
    } else {
        decimal_text(points as u128).concat(" Points")
    }
}

/// The picture of an element. Characters and support items have a picture of
/// the canvas; a unit and a free-form entry name their own.
pub open spec fn element_image(elem: RosterElement) -> ImageId {
    match elem {
        RosterElement::ElemCharacter(_) => ImageId::Character,
        RosterElement::ElemUnit(unit) => ImageId::Custom(unit.image),
        RosterElement::ElemSupport(_) => ImageId::Support,
        RosterElement::ElemOther((_, _, image)) => ImageId::Custom(image),
    }
}

/// The picture of an element.
pub fn get_image(elem: &RosterElement) -> (image: ImageId)
    ensures
        image == element_image(*elem),
{
    match elem {
        RosterElement::ElemCharacter(_) => ImageId::Character,
        RosterElement::ElemUnit(unit) => ImageId::Custom(unit.image.clone()),
        RosterElement::ElemSupport(_) => ImageId::Support,
        RosterElement::ElemOther((_, _, image)) => ImageId::Custom(image.clone()),
    }
}

/// The file that holds a picture.
pub open spec fn image_file(image: ImageId) -> Seq<char> {
    match image {
        ImageId::Character => "character.png"@,
        ImageId::Support => "support.png"@,
        ImageId::Custom(file) => file@,
    }
}

/// Where a picture is fetched from: its file below the directory of pictures.
pub open spec fn image_source(image: ImageId) -> Seq<char> {
    "./static/images/"@ + image_file(image)
}

/// The path from which a picture is fetched.
pub fn image_source_path(image: &ImageId) -> (path: String)
    ensures
        path@ == image_source(*image),
{
    let root = String::from_str("./static/images/");
    match image {
        ImageId::Character => root.concat("character.png"),
        ImageId::Support => root.concat("support.png"),
        ImageId::Custom(file) => root.concat(file.as_str()),
    }
}

/// A picture is inverted where the theme is dark and the picture is one of the
/// canvas's own. A picture that an element names is never inverted.
pub open spec fn image_class(image: ImageId, is_dark_mode: bool) -> ImageClass {
    if is_dark_mode && !(image is Custom) {
        ImageClass::Inverted
    } else {
        ImageClass::Normal
    }
}

/// Chooses how a picture is shown under the theme.
pub fn image_style_class(image: &ImageId, is_dark_mode: bool) -> (class: ImageClass)
    ensures
        class == image_class(*image, is_dark_mode),
        class is Inverted <==> is_dark_mode && (*image is Character || *image is Support),
{
    match image {
        ImageId::Custom(_) => ImageClass::Normal,
        _ => if is_dark_mode {
            ImageClass::Inverted
        } else {
            ImageClass::Normal
        },
    }
}

} // verus!
