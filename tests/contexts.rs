use orbital_backend::backend::{Backend, OrbitalBackend};
use orbital_backend::event::DomainEvent;
use orbital_backend::platform::PlatformEvent;
use orbital_backend::queue::EventQueue;

#[test]
fn layout_and_render_contexts_agree_on_size() {
    let mut b: OrbitalBackend<String, u32> = OrbitalBackend::new(String::from("dark"));
    let first = b.layout_context(320, 200).window_size;
    let render = b.render_context(320, 200).window_size;
    let second = b.layout_context(320, 200).window_size;
    assert_eq!(first, (320, 200));
    assert_eq!(render, (320, 200));
    assert_eq!(second, (320, 200));
    assert_eq!(b.layout_context(320, 200).theme, "dark");
}

#[test]
fn render_context_can_enqueue() {
    let mut b: OrbitalBackend<String, u32> = OrbitalBackend::new(String::from("t"));
    {
        let ctx = b.render_context(10, 10);
        assert_eq!(ctx.theme, "t");
        ctx.event_queue.register_event(DomainEvent::Quit, 2);
    }
    assert_eq!(b.queued().len(), 1);
    assert_eq!(b.queued().get(0).priority, 2);
}

#[test]
fn state_context_exposes_mailbox() {
    let mut b: OrbitalBackend<String, u32> = OrbitalBackend::new(String::from("t"));
    {
        let ctx = b.state_context();
        ctx.messages.insert(7, vec![1, 2]);
        assert!(ctx.event_queue.is_empty());
    }
    let ctx = b.state_context();
    assert_eq!(ctx.messages.get(&7), Some(&vec![1, 2]));
}

#[test]
fn init_context_holds_theme() {
    let b: OrbitalBackend<String, u32> = OrbitalBackend::new(String::from("light"));
    assert_eq!(b.init_context().theme, "light");
}

#[test]
fn queue_drains_in_order_once() {
    let mut q = EventQueue::new();
    q.register_event(DomainEvent::Quit, 0);
    q.register_event(DomainEvent::WindowResize { width: 1, height: 1 }, 1);
    assert_eq!(q.len(), 2);
    let out = q.drain();
    assert_eq!(out, vec![DomainEvent::Quit, DomainEvent::WindowResize { width: 1, height: 1 }]);
    assert!(q.is_empty());
    assert!(q.drain().is_empty());
}

#[test]
fn empty_drain_keeps_queue() {
    let mut b: OrbitalBackend<String, u32> = OrbitalBackend::new(String::from("t"));
    b.render_context(10, 10).event_queue.register_event(DomainEvent::Quit, 3);
    b.drain_events(Vec::<PlatformEvent>::new());
    assert_eq!(b.queued().len(), 1);
    assert_eq!(b.queued().get(0).priority, 3);
    assert_eq!(b.layout_context(30, 40).window_size, (30, 40));
}
