//! The interaction state machine: how pointer, wheel, key and window events
//! change the drag state and which effect each of them asks for.
//!
//! Positions and scroll amounts are values of a scalar type `S` that this
//! module never computes with: it records them, hands them on and says which
//! of them an effect is made of. The arithmetic on the pan offset and the
//! zoom factor belongs to whoever applies the effects.

use vstd::prelude::*;

verus! {

/// A position in the window, in pixels from its top left corner.
#[derive(Debug, Clone, Copy, PartialEq)]
pub struct Point<S> {
    pub x: S,
    pub y: S,
}

/// A pointer button, as far as the viewport cares.
#[derive(Debug, Clone, Copy, PartialEq, Eq)]
pub enum PointerButton {
    Primary,
    Other,
}

/// A key, as far as the viewport cares.
#[derive(Debug, Clone, Copy, PartialEq, Eq)]
pub enum Key {
    Quit,
    Other,
}

/// The phase of a scroll gesture.
#[derive(Debug, Clone, Copy, PartialEq, Eq)]
pub enum ScrollPhase {
    Started,
    Moved,
    Ended,
    Cancelled,
}

/// A vertical scroll amount, in wheel lines or in pixels. A pixel amount
/// comes with the caller's finding whether its magnitude is over the
/// threshold below which a pixel scroll does not zoom.
#[derive(Debug, Clone, Copy, PartialEq)]
pub enum ScrollDelta<S> {
    Lines(S),
    Pixels { dy: S, over_threshold: bool },
}

/// An input or window event.
#[derive(Debug, Clone, Copy, PartialEq)]
pub enum Event<S> {
    PointerMoved { x: S, y: S },
    ButtonPressed(PointerButton),
    ButtonReleased(PointerButton),
    Scroll { phase: ScrollPhase, delta: ScrollDelta<S> },
    Resized { width: u32, height: u32 },
    KeyPressed(Key),
    KeyReleased(Key),
    CloseRequested,
    RedrawRequested,
    PresentFailed,
}

/// The unit of a zoom request.
#[derive(Debug, Clone, Copy, PartialEq)]
pub enum ZoomAmount<S> {
    Lines(S),
    Pixels(S),
}

/// What the owner of the window and of the viewport transform is to do
/// after an event.
#[derive(Debug, Clone, Copy, PartialEq)]
pub enum Effect<S> {
    /// Nothing to do.
    Nothing,
    /// Move the pan offset by `to - from`, then redraw.
    Pan { from: Point<S>, to: Point<S> },
    /// Zoom by `amount`, keeping the point at `about` fixed, then redraw.
    Zoom { about: Point<S>, amount: ZoomAmount<S> },
    /// Redraw with the transform as it is.
    Redraw,
    /// Resize surface and frame buffer to the given size, then redraw.
    Resize { width: u32, height: u32 },
    /// Composite a frame and present it.
    Render,
    /// End the session.
    Exit,
}

/// Whether a pan drag is under way, and where it last was.
#[derive(Debug, Clone, Copy, PartialEq)]
pub enum DragState<S> {
    Idle,
    Dragging { anchor: Point<S> },
}

/// The pointer bookkeeping of the viewport.
#[derive(Debug, Clone, Copy, PartialEq)]
pub struct Interaction<S> {
    pub drag: DragState<S>,
    pub last_cursor: Point<S>,
}

/// A scroll gesture acts only while it starts or moves.
pub open spec fn phase_is_active(phase: ScrollPhase) -> bool {
    phase == ScrollPhase::Started || phase == ScrollPhase::Moved
}

impl<S> Effect<S> {
    /// The effects after which a new frame is due.
    pub open spec fn requests_redraw(self) -> bool {
        self is Pan || self is Zoom || self is Redraw || self is Resize
    }

    /// The effects that change the viewport transform.
    pub open spec fn changes_transform(self) -> bool {
        self is Pan || self is Zoom
    }
}

impl<S: Copy> Effect<S> {
    /// Whether a new frame is due after this effect.
    pub fn wants_redraw(&self) -> (r: bool)
        ensures
            r == self.requests_redraw(),
    {
        match self {
            Effect::Pan { .. } | Effect::Zoom { .. } | Effect::Redraw | Effect::Resize { .. } => {
                true
            },
            _ => false,
        }
    }
}

impl<S> Interaction<S> {
    /// A drag is under way.
    pub open spec fn dragging(self) -> bool {
        self.drag is Dragging
    }

    /// During a drag the anchor is the last cursor position.
    pub open spec fn anchored(self) -> bool {
        match self.drag {
            DragState::Idle => true,
            DragState::Dragging { anchor } => anchor == self.last_cursor,
        }
    }

    /// The state at startup: idle, with the cursor at `origin`.
    pub open spec fn new_spec(origin: Point<S>) -> Self {
        Interaction { drag: DragState::Idle, last_cursor: origin }
    }

    /// The state after `event`.
    pub open spec fn next(self, event: Event<S>) -> Self {
        match event {
            Event::PointerMoved { x, y } => Interaction {
                drag: match self.drag {
                    DragState::Idle => DragState::Idle,
                    DragState::Dragging { .. } => DragState::Dragging { anchor: Point { x, y } },
                },
                last_cursor: Point { x, y },
            },
            Event::ButtonPressed(PointerButton::Primary) => match self.drag {
                DragState::Idle => Interaction {
                    drag: DragState::Dragging { anchor: self.last_cursor },
                    last_cursor: self.last_cursor,
                },
                DragState::Dragging { .. } => self,
            },
            Event::ButtonReleased(PointerButton::Primary) => Interaction {
                drag: DragState::Idle,
                last_cursor: self.last_cursor,
            },
            _ => self,
        }
    }

    /// The state after the pointer has moved through `path`, point by point.
    pub open spec fn after_moves(self, path: Seq<Point<S>>) -> Self
        decreases path.len(),
    {
        if path.len() == 0 {
            self
        } else {
            self.after_moves(path.drop_last()).next(
                Event::PointerMoved { x: path.last().x, y: path.last().y },
            )
        }
    }

    /// The effect that `event` asks for in this state.
    pub open spec fn effect(self, event: Event<S>) -> Effect<S> {
        match event {
            Event::PointerMoved { x, y } => match self.drag {
                DragState::Idle => Effect::Nothing,
                DragState::Dragging { anchor } => Effect::Pan { from: anchor, to: Point { x, y } },
            },
            Event::Scroll { phase, delta } => if phase_is_active(phase) {
                match delta {
                    ScrollDelta::Lines(y) => Effect::Zoom {
                        about: self.last_cursor,
                        amount: ZoomAmount::Lines(y),
                    },
                    ScrollDelta::Pixels { dy, over_threshold } => if over_threshold {
                        Effect::Zoom { about: self.last_cursor, amount: ZoomAmount::Pixels(dy) }
                    } else {
                        Effect::Redraw
                    },
                }
            } else {
                Effect::Nothing
            },
            Event::Resized { width, height } => if width > 0 && height > 0 {
                Effect::Resize { width, height }
            } else {
                Effect::Nothing
            },
            Event::KeyPressed(Key::Quit) => Effect::Exit,
            Event::CloseRequested => Effect::Exit,
            Event::PresentFailed => Effect::Exit,
            Event::RedrawRequested => Effect::Render,
            _ => Effect::Nothing,
        }
    }
}

impl<S: Copy> Interaction<S> {
    /// The state at startup: idle, with the cursor at `origin`.
    pub fn new(origin: Point<S>) -> (s: Self)
        ensures
            s == Self::new_spec(origin),
    {
        Interaction { drag: DragState::Idle, last_cursor: origin }
    }

    /// Whether a drag is under way.
    pub fn is_dragging(&self) -> (r: bool)
        ensures
            r == self.dragging(),
    {
        match self.drag {
            DragState::Idle => false,
            DragState::Dragging { .. } => true,
        }
    }

    /// The anchor of the drag under way, if there is one.
    pub fn drag_anchor(&self) -> (r: Option<Point<S>>)
        ensures
            r.is_some() <==> self.dragging(),
            r.is_some() ==> self.drag == (DragState::Dragging { anchor: r.unwrap() }),
    {
        match self.drag {
            DragState::Idle => None,
            DragState::Dragging { anchor } => Some(anchor),
        }
    }

    /// Takes one event: moves to the next state and returns the effect that
    /// the event asks for.
    pub fn handle(&mut self, event: Event<S>) -> (effect: Effect<S>)
        ensures
            *final(self) == old(self).next(event),
            effect == old(self).effect(event),
    {
        match event {
            Event::PointerMoved { x, y } => {
                self.last_cursor = Point { x, y };
                match self.drag {
                    DragState::Idle => Effect::Nothing,
                    DragState::Dragging { anchor } => {
                        self.drag = DragState::Dragging { anchor: Point { x, y } };
                        Effect::Pan { from: anchor, to: Point { x, y } }
                    },
                }
            },
            Event::ButtonPressed(button) => {
                match (button, self.drag) {
                    (PointerButton::Primary, DragState::Idle) => {
                        self.drag = DragState::Dragging { anchor: self.last_cursor };
                    },
                    _ => {},
                }
                Effect::Nothing
            },
            Event::ButtonReleased(button) => {
                match button {
                    PointerButton::Primary => {
                        self.drag = DragState::Idle;
                    },
                    PointerButton::Other => {},
                }
                Effect::Nothing
            },
            Event::Scroll { phase, delta } => {
                match phase {
                    ScrollPhase::Started | ScrollPhase::Moved => match delta {
                        ScrollDelta::Lines(y) => Effect::Zoom {
                            about: self.last_cursor,
                            amount: ZoomAmount::Lines(y),
                        },
                        ScrollDelta::Pixels { dy, over_threshold } => {
                            if over_threshold {
                                Effect::Zoom {
                                    about: self.last_cursor,
                                    amount: ZoomAmount::Pixels(dy),
                                }
                            } else {
                                Effect::Redraw
                            }
                        },
                    },
                    _ => Effect::Nothing,
                }
            },
            Event::Resized { width, height } => {
                if width > 0 && height > 0 {
                    Effect::Resize { width, height }
                } else {
                    Effect::Nothing
                }
            },
            Event::KeyPressed(key) => {
                match key {
                    Key::Quit => Effect::Exit,
                    Key::Other => Effect::Nothing,
                }
            },
            Event::KeyReleased(_) => Effect::Nothing,
            Event::CloseRequested => Effect::Exit,
            Event::PresentFailed => Effect::Exit,
            Event::RedrawRequested => Effect::Render,
        }
    }
}

/// The anchor follows the cursor: a state in which the drag anchor is the
/// last cursor position stays so under every event.
pub proof fn lemma_anchor_follows_cursor<S>(s: Interaction<S>, event: Event<S>)
    requires
        s.anchored(),
    ensures
        s.next(event).anchored(),
{
}

/// A press of the primary button leaves a drag under way, its release
/// leaves none, and no other event changes whether one is under way.
pub proof fn lemma_drag_tracks_primary_button<S>(s: Interaction<S>, event: Event<S>)
    ensures
        event == Event::<S>::ButtonPressed(PointerButton::Primary) ==> s.next(event).dragging(),
        event == Event::<S>::ButtonReleased(PointerButton::Primary) ==> !s.next(event).dragging(),
        event != Event::<S>::ButtonPressed(PointerButton::Primary) && event != Event::<
            S,
        >::ButtonReleased(PointerButton::Primary) ==> s.next(event).dragging() == s.dragging(),
{
}

/// The last cursor position is that of the most recent pointer move, in
/// either drag state; no other event changes it.
pub proof fn lemma_cursor_is_latest_move<S>(s: Interaction<S>, event: Event<S>)
    ensures
        match event {
            Event::PointerMoved { x, y } => s.next(event).last_cursor == (Point { x, y }),
            _ => s.next(event).last_cursor == s.last_cursor,
        },
{
}

/// Two moves in a row during a drag: the first pans from the anchor, the
/// second from where the first ended, and the drag goes on.
pub proof fn lemma_pans_chain<S>(s: Interaction<S>, p: Point<S>, q: Point<S>)
    requires
        s.dragging(),
    ensures
        s.effect(Event::PointerMoved { x: p.x, y: p.y }) == (Effect::Pan {
            from: s.drag->anchor,
            to: p,
        }),
        s.next(Event::PointerMoved { x: p.x, y: p.y }).effect(
            Event::PointerMoved { x: q.x, y: q.y },
        ) == (Effect::Pan { from: p, to: q }),
        s.next(Event::PointerMoved { x: p.x, y: p.y }).dragging(),
{
}

/// However many moves a drag is made of, it stays a drag and its anchor is
/// the last point reached: the next move pans from there.
pub proof fn lemma_drag_follows_path<S>(s: Interaction<S>, path: Seq<Point<S>>, q: Point<S>)
    requires
        s.dragging(),
        path.len() > 0,
    ensures
        s.after_moves(path) == (Interaction {
            drag: DragState::Dragging { anchor: path.last() },
            last_cursor: path.last(),
        }),
        s.after_moves(path).effect(Event::PointerMoved { x: q.x, y: q.y }) == (Effect::Pan {
            from: path.last(),
            to: q,
        }),
    decreases path.len(),
{
    if path.len() > 1 {
        lemma_drag_follows_path(s, path.drop_last(), q);
    } else {
        assert(path.drop_last().len() == 0);
        assert(s.after_moves(path.drop_last()) == s);
    }
}

/// A pixel scroll that is not over the threshold leaves the state as it is
/// and asks for nothing that changes the viewport transform.
pub proof fn lemma_small_pixel_scroll_is_inert<S>(s: Interaction<S>, phase: ScrollPhase, dy: S)
    ensures
        s.next(Event::Scroll { phase, delta: ScrollDelta::Pixels { dy, over_threshold: false } })
            == s,
        !s.effect(
            Event::Scroll { phase, delta: ScrollDelta::Pixels { dy, over_threshold: false } },
        ).changes_transform(),
{
}

/// Only pointer moves during a drag and scrolls change the viewport
/// transform; a resize to an empty size asks for nothing.
pub proof fn lemma_transform_changes<S>(s: Interaction<S>, event: Event<S>)
    ensures
        s.effect(event) is Pan ==> event is PointerMoved && s.dragging(),
        s.effect(event) is Zoom ==> event is Scroll && s.effect(event)->about == s.last_cursor,
        s.effect(event) is Resize ==> event is Resized && event->width > 0 && event->height > 0
            && s.effect(event) == (Effect::<S>::Resize {
            width: event->width,
            height: event->height,
        }),
        s.effect(event) is Exit <==> event == Event::<S>::CloseRequested || event == Event::<
            S,
        >::KeyPressed(Key::Quit) || event == Event::<S>::PresentFailed,
{
}

} // verus!
