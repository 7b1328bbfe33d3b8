//! The canvas: the state of its tooltip and how each message changes it.

use crate::display::{
    banner_for, cells_for, content_view, overlay_for, render_banner, render_cells, render_overlay,
    DisplayTree, DisplayTreeView,
};
use crate::messages::SharedMessage;
use crate::render::{get_tooltip_content, tooltip_content, TooltipContent, TooltipContentView};
use crate::roster::{element_points, lemma_total_points_remove, total_points, Roster, RosterElement};
use vstd::prelude::*;

verus! {

/// What the owner of the canvas sets, besides the roster itself.
#[derive(Clone, Copy, Debug, PartialEq, Eq, Structural)]
pub struct Props {
    pub is_dark_mode: bool,
}

/// What the owner of the canvas has to do after a message.
#[derive(Clone, Copy, Debug, PartialEq, Eq, Structural)]
pub struct Outcome {
    /// The canvas is to be drawn again.
    pub render: bool,
    /// The roster has lost an element, and its owner is to be told.
    pub notify_owner: bool,
}

/// The canvas. It never owns the roster: it borrows it to draw, and borrows it
/// mutably while it handles one message.
pub struct MainCanvas {
    props: Props,
    tooltip_visible: bool,
    tooltip_content: Option<TooltipContent>,
    tooltip_x: i32,
    tooltip_y: i32,
}

/// The canvas as plain values. `content` is what the tooltip showed last; it
/// stays when the tooltip is hidden.
pub struct CanvasState {
    pub is_dark_mode: bool,
    pub visible: bool,
    pub content: Option<TooltipContentView>,
    pub x: int,
    pub y: int,
}

/// What a message leads to: the canvas and the roster after it, and what is
/// left to the owner.
pub struct Transition {
    pub state: CanvasState,
    pub elements: Seq<RosterElement>,
    pub outcome: Outcome,
}

impl MainCanvas {
    /// The canvas as plain values.
    pub closed spec fn state(&self) -> CanvasState {
        CanvasState {
            is_dark_mode: self.props.is_dark_mode,
            visible: self.tooltip_visible,
            content: content_view(self.tooltip_content),
            x: self.tooltip_x as int,
            y: self.tooltip_y as int,
        }
    }
}

impl CanvasState {
    /// A visible tooltip has something to show.
    pub open spec fn wf(self) -> bool {
        self.visible ==> self.content is Some
    }
}

/// The canvas as it is made: the tooltip hidden, empty, at the origin.
pub open spec fn initial_state(props: Props) -> CanvasState {
    CanvasState { is_dark_mode: props.is_dark_mode, visible: false, content: None, x: 0, y: 0 }
}

/// The effect of one message on the canvas and on the roster.
///
/// An index is held against the roster as it is now. A stale index is no
/// error: the tooltip is not shown for it, and nothing is deleted, though a
/// double click hides the tooltip in any case. A message that the canvas does
/// not take changes nothing.
pub open spec fn step(state: CanvasState, elements: Seq<RosterElement>, msg: SharedMessage)
    -> Transition {
    let quiet = Outcome { render: true, notify_owner: false };
    match msg {
        SharedMessage::NotifyRosterUpdated => Transition {
            state: state,
            elements: elements,
            outcome: quiet,
        },
        SharedMessage::DeleteElement(index) => Transition {
            state: CanvasState { visible: false, ..state },
            elements: if index < elements.len() {
                elements.remove(index as int)
            } else {
                elements
            },
            outcome: Outcome { render: true, notify_owner: index < elements.len() },
        },
        SharedMessage::ShowTooltip(index) => Transition {
            state: if index < elements.len() {
                CanvasState {
                    visible: true,
                    content: Some(tooltip_content(elements[index as int])),
                    ..state
                }
            } else {
                state
            },
            elements: elements,
            outcome: quiet,
        },
        SharedMessage::MoveTooltip(x, y) => Transition {
            state: CanvasState { x: x as int, y: y as int, ..state },
            elements: elements,
            outcome: quiet,
        },
        SharedMessage::HideTooltip => Transition {
            state: CanvasState { visible: false, ..state },
            elements: elements,
            outcome: quiet,
        },
        SharedMessage::Unsupported => Transition {
            state: state,
            elements: elements,
            outcome: Outcome { render: false, notify_owner: false },
        },
    }
}

/// What is drawn for a canvas and a roster.
pub open spec fn display_for(state: CanvasState, elements: Seq<RosterElement>) -> DisplayTreeView {
    DisplayTreeView {
        banner: banner_for(elements),
        cells: cells_for(elements, state.is_dark_mode),
        tooltip: overlay_for(state.visible, state.content, state.x, state.y),
    }
}

impl MainCanvas {
    /// A new canvas.
    pub fn create(props: Props) -> (canvas: MainCanvas)
        ensures
            canvas.state() == initial_state(props),
            canvas.state().wf(),
    {
        MainCanvas {
            props: props,
            tooltip_visible: false,
            tooltip_content: None,
            tooltip_x: 0,
            tooltip_y: 0,
        }
    }

    /// Handles one message. `roster` is the roster as it is when the message
    /// arrives.
    pub fn update(&mut self, roster: &mut Roster, msg: SharedMessage) -> (outcome: Outcome)
        requires
            msg.handled(),
        ensures
            final(self).state() == step(old(self).state(), old(roster).elements@, msg).state,
            final(roster).elements@ == step(old(self).state(), old(roster).elements@, msg).elements,
            outcome == step(old(self).state(), old(roster).elements@, msg).outcome,
            outcome.render,
    {
        match msg {
            SharedMessage::NotifyRosterUpdated => Outcome { render: true, notify_owner: false },
            SharedMessage::DeleteElement(index) => {
                let in_bounds = index < roster.elements.len();
                if in_bounds {
                    roster.elements.remove(index);
                }
                self.tooltip_visible = false;
                Outcome { render: true, notify_owner: in_bounds }
            },
            SharedMessage::ShowTooltip(index) => {
                if index < roster.elements.len() {
                    self.tooltip_content = Some(get_tooltip_content(&roster.elements[index]));
                    self.tooltip_visible = true;
                }
                Outcome { render: true, notify_owner: false }
            },
            SharedMessage::MoveTooltip(x, y) => {
                self.tooltip_x = x;
                self.tooltip_y = y;
                Outcome { render: true, notify_owner: false }
            },
            SharedMessage::HideTooltip => {
                self.tooltip_visible = false;
                Outcome { render: true, notify_owner: false }
            },
            SharedMessage::Unsupported => Outcome { render: false, notify_owner: false },
        }
    }

    /// Draws the canvas over a roster.
    pub fn view(&self, roster: &Roster) -> (tree: DisplayTree)
        ensures
            tree@ == display_for(self.state(), roster.elements@),
            tree.cells@.len() == roster.elements@.len(),
    {
        DisplayTree {
            banner: render_banner(roster),
            cells: render_cells(roster, self.props.is_dark_mode),
            tooltip: render_overlay(
                self.tooltip_visible,
                &self.tooltip_content,
                self.tooltip_x,
                self.tooltip_y,
            ),
        }
    }

    /// Takes new properties from the owner. The tooltip stays as it is, and
    /// the canvas is always drawn again.
    pub fn changed(&mut self, new_props: Props) -> (render: bool)
        ensures
            render,
            final(self).state() == (CanvasState { is_dark_mode: new_props.is_dark_mode, ..old(self).state() }),
    {
        self.props = new_props;
        true
    }

    /// Whether the dark theme is on.
    pub fn is_dark_mode(&self) -> (dark: bool)
        ensures
            dark == self.state().is_dark_mode,
    {
        self.props.is_dark_mode
    }

    /// Whether the tooltip is shown.
    pub fn tooltip_visible(&self) -> (visible: bool)
        ensures
            visible == self.state().visible,
    {
        self.tooltip_visible
    }

    /// What the tooltip showed last, if it has shown anything.
    pub fn tooltip_content(&self) -> (content: Option<&TooltipContent>)
        ensures
            match content {
                Some(content) => Some(content@),
                None => None,
            } == self.state().content,
    {
        self.tooltip_content.as_ref()
    }

    /// Where the tooltip is: from the left, and from the top.
    pub fn tooltip_position(&self) -> (position: (i32, i32))
        ensures
            position.0 == self.state().x,
            position.1 == self.state().y,
    {
        (self.tooltip_x, self.tooltip_y)
    }
}

/// Moving the tooltip a second time to the same place changes nothing more,
/// and a move touches neither the roster nor what the tooltip shows, nor
/// whether it is shown.
pub proof fn lemma_move_is_idempotent(
    state: CanvasState,
    elements: Seq<RosterElement>,
    x: i32,
    y: i32,
)
    ensures
        ({
            let once = step(state, elements, SharedMessage::MoveTooltip(x, y));
            let twice = step(once.state, once.elements, SharedMessage::MoveTooltip(x, y));
            &&& twice.state == once.state
            &&& twice.elements == once.elements
            &&& once.state.x == x
            &&& once.state.y == y
            &&& once.state.visible == state.visible
            &&& once.state.content == state.content
            &&& once.state.is_dark_mode == state.is_dark_mode
            &&& once.elements == elements
        }),
{
}

/// A double click on an element that is there takes out that element and no
/// other: those before it stay in place, those after it move up by one, the
/// total drops by its points, the owner is told, and the tooltip is hidden
/// whatever it showed.
pub proof fn lemma_delete_removes_one(
    state: CanvasState,
    elements: Seq<RosterElement>,
    index: usize,
)
    requires
        index < elements.len(),
    ensures
        ({
            let after = step(state, elements, SharedMessage::DeleteElement(index));
            &&& after.elements.len() == elements.len() - 1
            &&& forall|k: int| 0 <= k < index ==> after.elements[k] == elements[k]
            &&& forall|k: int|
                index <= k < after.elements.len() ==> after.elements[k] == elements[k + 1]
            &&& total_points(after.elements) == total_points(elements) - element_points(
                elements[index as int],
            )
            &&& !after.state.visible
            &&& after.outcome.notify_owner
            &&& after.outcome.render
        }),
{
    lemma_total_points_remove(elements, index as int);
}

/// A double click with a stale index deletes nothing and tells the owner
/// nothing, and still hides the tooltip.
pub proof fn lemma_stale_delete_only_hides(
    state: CanvasState,
    elements: Seq<RosterElement>,
    index: usize,
)
    requires
        index >= elements.len(),
    ensures
        ({
            let after = step(state, elements, SharedMessage::DeleteElement(index));
            &&& after.elements == elements
            &&& after.state == (CanvasState { visible: false, ..state })
            &&& !after.outcome.notify_owner
        }),
{
}

/// The pointer over an element that is there shows the tooltip of that
/// element where the tooltip was last.
pub proof fn lemma_show_sets_content(
    state: CanvasState,
    elements: Seq<RosterElement>,
    index: usize,
)
    requires
        index < elements.len(),
    ensures
        ({
            let after = step(state, elements, SharedMessage::ShowTooltip(index));
            &&& after.state.visible
            &&& after.state.content == Some(tooltip_content(elements[index as int]))
            &&& after.state.x == state.x
            &&& after.state.y == state.y
            &&& after.elements == elements
        }),
{
}

/// The pointer over an element that is no longer there changes nothing: the
/// tooltip stays hidden, or goes on showing what it showed.
pub proof fn lemma_stale_show_changes_nothing(
    state: CanvasState,
    elements: Seq<RosterElement>,
    index: usize,
)
    requires
        index >= elements.len(),
    ensures
        ({
            let after = step(state, elements, SharedMessage::ShowTooltip(index));
            &&& after.state == state
            &&& after.elements == elements
            &&& !after.outcome.notify_owner
        }),
{
}

/// What each message leaves alone. The roster changes only by a double click
/// on an element that is there, and then the owner is told; the position only
/// by a move; the content only by the pointer coming over an element that is
/// there; the theme by no message. Every message that the canvas takes has
/// the canvas drawn again.
pub proof fn lemma_step_frame(state: CanvasState, elements: Seq<RosterElement>, msg: SharedMessage)
    ensures
        ({
            let after = step(state, elements, msg);
            &&& after.state.is_dark_mode == state.is_dark_mode
            &&& after.elements != elements ==> msg is DeleteElement && after.outcome.notify_owner
            &&& after.outcome.notify_owner ==> after.elements.len() == elements.len() - 1
            &&& !after.outcome.notify_owner ==> after.elements == elements
            &&& (after.state.x != state.x || after.state.y != state.y) ==> msg is MoveTooltip
            &&& after.state.content != state.content ==> msg is ShowTooltip
            &&& msg.handled() ==> after.outcome.render
        }),
{
}

/// A visible tooltip always has something to show.
pub proof fn lemma_step_keeps_wf(state: CanvasState, elements: Seq<RosterElement>, msg: SharedMessage)
    requires
        state.wf(),
    ensures
        step(state, elements, msg).state.wf(),
{
}

/// After any message, the overlay is drawn if and only if the tooltip is
/// visible, and the banner and the cells are those of the roster as the message
/// left it.
pub proof fn lemma_display_follows_step(
    state: CanvasState,
    elements: Seq<RosterElement>,
    msg: SharedMessage,
)
    ensures
        ({
            let after = step(state, elements, msg);
            let tree = display_for(after.state, after.elements);
            &&& tree.tooltip is Some <==> after.state.visible
            &&& tree.banner == banner_for(after.elements)
            &&& tree.cells.len() == after.elements.len()
            &&& (msg is DeleteElement || msg is HideTooltip) ==> tree.tooltip is None
        }),
{
}

} // verus!
