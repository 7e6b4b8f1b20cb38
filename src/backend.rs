//! The backend: translation state, event queue, mailbox and the
//! phase-scoped context views over them.
use vstd::prelude::*;

use std::collections::BTreeMap;

use crate::event::Point;
use crate::platform::{
    advance_all, as_seq, translate_all, translate_event, InputState, PlatformEvent,
};
use crate::queue::{at_priority_zero, EventQueue, QueuedEvent};

verus! {

/// Identifies an entity of the UI world.
pub type EntityId = u32;

/// The view handed to the start-up phase: the theme alone.
pub struct InitContext<'a, T> {
    pub theme: &'a T,
}

/// The view handed to the paint phase.
pub struct RenderContext<'a, T> {
    pub theme: &'a T,
    pub event_queue: &'a mut EventQueue,
    pub window_size: (u32, u32),
}

/// The view handed to the layout phase.
pub struct LayoutContext<'a, T> {
    pub window_size: (u32, u32),
    pub theme: &'a T,
}

/// The view handed to the event-dispatch phase: the event queue alone.
pub struct EventContext<'a> {
    pub event_queue: &'a mut EventQueue,
}

/// The view handed to the state phase.
pub struct StateContext<'a, T, M> {
    pub theme: &'a T,
    pub event_queue: &'a mut EventQueue,
    pub messages: &'a mut BTreeMap<EntityId, Vec<M>>,
}

/// The backend of one window: the theme, the translation state, the events
/// of the current frame and a mailbox of messages per entity.
pub struct OrbitalBackend<T, M> {
    theme: T,
    input: InputState,
    event_queue: EventQueue,
    messages: BTreeMap<EntityId, Vec<M>>,
}

/// What a platform backend offers the UI runtime: the per-frame drain of
/// platform events and a narrow view of its state for each phase.
pub trait Backend {
    type Theme;
    type Message;

    /// The events waiting for dispatch, oldest first.
    spec fn spec_queue(&self) -> Seq<QueuedEvent>;

    /// What the translation remembers of earlier platform events.
    spec fn spec_input(&self) -> InputState;

    /// The theme.
    spec fn spec_theme(&self) -> Self::Theme;

    /// The mailbox of messages per entity.
    spec fn spec_messages(&self) -> BTreeMap<EntityId, Vec<Self::Message>>;

    /// One frame's drain: translates every pending platform event in order
    /// and appends what each yields to the event queue with priority zero.
    fn drain_events(&mut self, events: Vec<PlatformEvent>)
        ensures
            final(self).spec_input() == advance_all(old(self).spec_input(), events@),
            final(self).spec_queue() == old(self).spec_queue() + at_priority_zero(
                translate_all(old(self).spec_input(), events@),
            ),
            final(self).spec_theme() == old(self).spec_theme(),
            final(self).spec_messages() == old(self).spec_messages(),
    ;

    /// The view for the start-up phase.
    fn init_context(&self) -> (r: InitContext<'_, Self::Theme>)
        ensures
            *r.theme == self.spec_theme(),
    ;

    /// The view for the layout phase: the window's size, as the platform
    /// window reports it at the time of the call, and the theme.
    fn layout_context(&self, width: u32, height: u32) -> (r: LayoutContext<'_, Self::Theme>)
        ensures
            r.window_size == (width, height),
            *r.theme == self.spec_theme(),
    ;

    /// The view for the paint phase: the theme, the window's size, as the
    /// platform window reports it at the time of the call, and the event
    /// queue, which paint logic may extend.
    fn render_context(&mut self, width: u32, height: u32) -> (r: RenderContext<'_, Self::Theme>)
        ensures
            *r.theme == old(self).spec_theme(),
            r.window_size == (width, height),
            (*r.event_queue)@ == old(self).spec_queue(),
            final(self).spec_queue() == final(r.event_queue)@,
            final(self).spec_theme() == old(self).spec_theme(),
            final(self).spec_input() == old(self).spec_input(),
            final(self).spec_messages() == old(self).spec_messages(),
    ;

    /// The view for the event-dispatch phase: the event queue alone.
    fn event_context(&mut self) -> (r: EventContext<'_>)
        ensures
            (*r.event_queue)@ == old(self).spec_queue(),
            final(self).spec_queue() == final(r.event_queue)@,
            final(self).spec_theme() == old(self).spec_theme(),
            final(self).spec_input() == old(self).spec_input(),
            final(self).spec_messages() == old(self).spec_messages(),
    ;

    /// The view for the state phase: the theme, the event queue and the
    /// mailbox of messages per entity.
    fn state_context(&mut self) -> (r: StateContext<'_, Self::Theme, Self::Message>)
        ensures
            *r.theme == old(self).spec_theme(),
            (*r.event_queue)@ == old(self).spec_queue(),
            *r.messages == old(self).spec_messages(),
            final(self).spec_queue() == final(r.event_queue)@,
            final(self).spec_messages() == *final(r.messages),
            final(self).spec_theme() == old(self).spec_theme(),
            final(self).spec_input() == old(self).spec_input(),
    ;
}

impl<T, M> OrbitalBackend<T, M> {
    /// A backend with no button pressed, the pointer at the origin, and
    /// nothing queued or posted.
    pub fn new(theme: T) -> (r: Self)
        ensures
            r.spec_theme() == theme,
            r.spec_input() == (InputState {
                buttons: crate::platform::ButtonState { left: false, middle: false, right: false },
                position: Point { x: 0, y: 0 },
            }),
            r.spec_queue() == Seq::<QueuedEvent>::empty(),
            r.spec_messages()@ == Map::<EntityId, Vec<M>>::empty(),
    {
        OrbitalBackend {
            theme,
            input: InputState::new(),
            event_queue: EventQueue::new(),
            messages: BTreeMap::new(),
        }
    }

    /// The pointer position last reported by the platform.
    pub fn mouse_position(&self) -> (r: Point)
        ensures
            r == self.spec_input().position,
    {
        self.input.position
    }

    /// The queued events, oldest first, without removing them.
    pub fn queued(&self) -> (r: &EventQueue)
        ensures
            r@ == self.spec_queue(),
    {
        &self.event_queue
    }
}

impl<T, M> Backend for OrbitalBackend<T, M> {
    type Theme = T;
    type Message = M;

    closed spec fn spec_queue(&self) -> Seq<QueuedEvent> {
        self.event_queue@
    }

    closed spec fn spec_input(&self) -> InputState {
        self.input
    }

    closed spec fn spec_theme(&self) -> T {
        self.theme
    }

    closed spec fn spec_messages(&self) -> BTreeMap<EntityId, Vec<M>> {
        self.messages
    }

    fn drain_events(&mut self, events: Vec<PlatformEvent>) {
        let ghost s0 = self.input;
        let ghost q0 = self.event_queue@;
        let mut i: usize = 0;
        while i < events.len()
            invariant
                i <= events@.len(),
                self.input == advance_all(s0, events@.take(i as int)),
                self.event_queue@ == q0 + at_priority_zero(translate_all(s0, events@.take(i as int))),
                self.theme == old(self).theme,
                self.messages == old(self).messages,
            decreases events@.len() - i,
        {
            let e = events[i];
            let ghost pre = events@.take(i as int);
            let out = translate_event(&mut self.input, e);
            match out {
                Some(d) => {
                    self.event_queue.register_event(d, 0);
                },
                None => {},
            }
            i = i + 1;
            assert(events@.take(i as int).drop_last() == pre);
            assert(events@.take(i as int).last() == e);
            assert(at_priority_zero(translate_all(s0, pre) + as_seq(out)) =~= at_priority_zero(
                translate_all(s0, pre),
            ) + at_priority_zero(as_seq(out)));
            assert(self.event_queue@ =~= q0 + at_priority_zero(translate_all(s0, events@.take(i as int))));
        }
        assert(events@.take(i as int) == events@);
    }

    fn init_context(&self) -> (r: InitContext<'_, T>)
    {
        InitContext { theme: &self.theme }
    }

    fn layout_context(&self, width: u32, height: u32) -> (r: LayoutContext<'_, T>) {
        LayoutContext { window_size: (width, height), theme: &self.theme }
    }
    fn render_context(&mut self, width: u32, height: u32) -> (r: RenderContext<'_, T>) {
        RenderContext {
            theme: &self.theme,
            event_queue: &mut self.event_queue,
            window_size: (width, height),
        }
    }

    fn event_context(&mut self) -> (r: EventContext<'_>)
    {
        EventContext { event_queue: &mut self.event_queue }
    }

    fn state_context(&mut self) -> (r: StateContext<'_, T, M>)
    {
        StateContext {
            theme: &self.theme,
            event_queue: &mut self.event_queue,
            messages: &mut self.messages,
        }
    }
}

} // verus!
