//! The session: the one owner of the pointer state, the window size and the
//! destination frame buffer. Events go in, effects come out, and the buffer
//! always has the length that the window size asks for.

use vstd::prelude::*;
use crate::bitmap::SourceBitmap;
use crate::compositor::{composed, frame_fits, frame_len, render, resize_frame, resized};
use crate::interaction::{Effect, Event, Interaction, Point};

verus! {

/// What a session is: pointer state, window size and the bytes of the frame.
pub ghost struct SessionState<S> {
    pub pointer: Interaction<S>,
    pub width: u32,
    pub height: u32,
    pub frame: Seq<u8>,
}

impl<S> SessionState<S> {
    /// The frame has four bytes for each pixel of the window.
    pub open spec fn wf(self) -> bool {
        self.frame.len() == frame_len(self.width, self.height)
    }

    /// The state in which a session on a `width` by `height` window opens:
    /// idle, the cursor at `origin`, the frame all zero.
    pub open spec fn initial(origin: Point<S>, width: u32, height: u32) -> Self {
        SessionState {
            pointer: Interaction::new_spec(origin),
            width,
            height,
            frame: resized(Seq::empty(), frame_len(width, height)),
        }
    }

    /// The effect that `event` asks for. It is that of the pointer state,
    /// except that a resize to a size no buffer can have is ignored like
    /// one to an empty size.
    pub open spec fn effect(self, event: Event<S>) -> Effect<S> {
        match self.pointer.effect(event) {
            Effect::Resize { width, height } => if frame_fits(width, height) {
                Effect::Resize { width, height }
            } else {
                Effect::Nothing
            },
            other => other,
        }
    }

    /// The state after `event`: the pointer state moves on, and a resize
    /// that is acted on sets the window size and brings the frame to the new
    /// length, keeping what fits and zeroing what is new. Every other event
    /// leaves size and frame untouched.
    pub open spec fn next(self, event: Event<S>) -> Self {
        match self.effect(event) {
            Effect::Resize { width, height } => SessionState {
                pointer: self.pointer.next(event),
                width,
                height,
                frame: resized(self.frame, frame_len(width, height)),
            },
            _ => SessionState {
                pointer: self.pointer.next(event),
                width: self.width,
                height: self.height,
                frame: self.frame,
            },
        }
    }
}

/// A viewing session. Its frame buffer is `width * height * 4` bytes long:
/// `new` makes it so, and `handle` and `render` keep it so.
pub struct Session<S> {
    pointer: Interaction<S>,
    width: u32,
    height: u32,
    frame: Vec<u8>,
}

impl<S> View for Session<S> {
    type V = SessionState<S>;

    closed spec fn view(&self) -> SessionState<S> {
        SessionState {
            pointer: self.pointer,
            width: self.width,
            height: self.height,
            frame: self.frame@,
        }
    }
}

impl<S: Copy> Session<S> {
    /// Opens a session on a `width` by `height` window with the cursor at
    /// `origin`. `None` exactly when no buffer can be as long as the window
    /// needs.
    pub fn new(origin: Point<S>, width: u32, height: u32) -> (r: Option<Self>)
        ensures
            r.is_some() == frame_fits(width, height),
            r.is_some() ==> r.unwrap()@ == SessionState::initial(origin, width, height),
            r.is_some() ==> r.unwrap()@.wf(),
    {
        let mut frame: Vec<u8> = Vec::new();
        if resize_frame(&mut frame, width, height) {
            Some(Session { pointer: Interaction::new(origin), width, height, frame })
        } else {
            None
        }
    }

    /// The pointer state.
    pub fn pointer(&self) -> (p: Interaction<S>)
        ensures
            p == self@.pointer,
    {
        self.pointer
    }

    /// The window's width in pixels.
    pub fn width(&self) -> (w: u32)
        ensures
            w == self@.width,
    {
        self.width
    }

    /// The window's height in pixels.
    pub fn height(&self) -> (h: u32)
        ensures
            h == self@.height,
    {
        self.height
    }

    /// The frame buffer.
    pub fn frame(&self) -> (f: &Vec<u8>)
        ensures
            f@ == self@.frame,
    {
        &self.frame
    }

    /// Takes one event: moves to the next state and returns the effect that
    /// the event asks for.
    pub fn handle(&mut self, event: Event<S>) -> (effect: Effect<S>)
        ensures
            final(self)@ == old(self)@.next(event),
            effect == old(self)@.effect(event),
            old(self)@.wf() ==> final(self)@.wf(),
    {
        let asked = self.pointer.handle(event);
        match asked {
            Effect::Resize { width, height } => {
                if resize_frame(&mut self.frame, width, height) {
                    self.width = width;
                    self.height = height;
                    asked
                } else {
                    Effect::Nothing
                }
            },
            other => other,
        }
    }

    /// Composites the bitmap into the session's buffer through the two
    /// sample maps. Nothing but the buffer changes.
    pub fn render(
        &mut self,
        bitmap: &SourceBitmap,
        cols: &Vec<Option<u32>>,
        rows: &Vec<Option<u32>>,
    )
        ensures
            final(self)@ == (SessionState {
                frame: composed(old(self)@.frame, bitmap@, cols@, rows@),
                ..old(self)@
            }),
            old(self)@.wf() ==> final(self)@.wf(),
    {
        render(&mut self.frame, bitmap, cols, rows);
    }
}

/// The frame keeps the length that the window size asks for: it has it when
/// the session opens, and every event preserves it.
pub proof fn lemma_frame_stays_sized<S>(s: SessionState<S>, event: Event<S>)
    requires
        s.wf(),
    ensures
        s.next(event).wf(),
{
}

/// A session opens with a frame of the length its window asks for.
pub proof fn lemma_initial_frame_is_sized<S>(origin: Point<S>, width: u32, height: u32)
    ensures
        SessionState::initial(origin, width, height).wf(),
{
}

/// A resize to a size with a zero side changes nothing and asks for nothing.
pub proof fn lemma_empty_resize_is_ignored<S>(s: SessionState<S>, width: u32, height: u32)
    requires
        width == 0 || height == 0,
    ensures
        s.effect(Event::Resized { width, height }) == Effect::<S>::Nothing,
        s.next(Event::Resized { width, height }) == s,
{
}

/// After a resize to a proper size that a buffer can have, the window has
/// that size and the frame is exactly as long as it needs.
pub proof fn lemma_resize_sets_length<S>(s: SessionState<S>, width: u32, height: u32)
    requires
        width > 0,
        height > 0,
        frame_fits(width, height),
    ensures
        s.effect(Event::Resized { width, height }) == (Effect::<S>::Resize { width, height }),
        s.next(Event::Resized { width, height }).width == width,
        s.next(Event::Resized { width, height }).height == height,
        s.next(Event::Resized { width, height }).frame.len() == width * height * 4,
{
}

} // verus!
