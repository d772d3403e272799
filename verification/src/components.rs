//! The drawable capability and the concrete component kinds.

use vstd::prelude::*;

verus! {

/// The record of one `draw` invocation: which concrete component kind the
/// call was dispatched to, together with that component's contents.
///
/// Drawing is a stub with no runtime effect, so the event is purely ghost;
/// it exists so that contracts can say which components were drawn and in
/// what order.
pub enum DrawEvent {
    Button { width: u32, height: u32, label: Seq<char> },
    SelectBox { width: u32, height: u32, options: Seq<Seq<char>> },
}

/// The drawable capability: a component a `Screen` can hold.
///
/// `draw` takes no input and performs no runtime action. Its ghost result
/// records the invocation, and the contract ties that record to the
/// component the method was invoked on.
pub trait Draw {
    /// The event that one invocation of `draw` on this component records.
    spec fn draw_event(&self) -> DrawEvent;

    /// Draw the component: a stub with no observable effect beyond the
    /// invocation itself, which the ghost result witnesses.
    fn draw(&self) -> (e: Ghost<DrawEvent>)
        ensures
            e@ == self.draw_event(),
    ;
}

/// A push button: plain data, drawable.
pub struct Button {
    pub width: u32,
    pub height: u32,
    pub label: String,
}

impl Draw for Button {
    open spec fn draw_event(&self) -> DrawEvent {
        DrawEvent::Button { width: self.width, height: self.height, label: self.label@ }
    }

    fn draw(&self) -> (e: Ghost<DrawEvent>) {
        Ghost(self.draw_event())
    }
}

/// A selection box with a list of options: plain data, drawable.
pub struct SelectBox {
    pub width: u32,
    pub height: u32,
    pub options: Vec<String>,
}

impl Draw for SelectBox {
    open spec fn draw_event(&self) -> DrawEvent {
        DrawEvent::SelectBox {
            width: self.width,
            height: self.height,
            options: self.options.deep_view(),
        }
    }

    fn draw(&self) -> (e: Ghost<DrawEvent>) {
        Ghost(self.draw_event())
    }
}

/// The closed set of component kinds a `Screen` can hold, erased behind the
/// `Draw` capability: drawing a `Component` dispatches to the concrete
/// variant's own `draw`.
pub enum Component {
    Button(Button),
    SelectBox(SelectBox),
}

impl Draw for Component {
    open spec fn draw_event(&self) -> DrawEvent {
        match self {
            Component::Button(b) => b.draw_event(),
            Component::SelectBox(s) => s.draw_event(),
        }
    }

    fn draw(&self) -> (e: Ghost<DrawEvent>) {
        match self {
            Component::Button(b) => b.draw(),
            Component::SelectBox(s) => s.draw(),
        }
    }
}

/// Dispatch through the capability reaches the concrete variant's `draw`:
/// the event a `Component` records is exactly the event its concrete
/// variant records, whichever variant it is.
pub proof fn lemma_dispatch_reaches_variant(c: Component)
    ensures
        c matches Component::Button(b) ==> c.draw_event() == b.draw_event(),
        c matches Component::SelectBox(s) ==> c.draw_event() == s.draw_event(),
{
}

} // verus!
