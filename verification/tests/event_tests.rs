use glk_rs::entry::Glk;
use glk_rs::events::GlkEvent;

#[test]
fn can_create_an_event() {
    let foo = GlkEvent::NoEvent;
    assert_eq!(foo, GlkEvent::NoEvent);
}

#[test]
fn can_check_for_events() {
    let mut glk = Glk::new();
    assert_eq!(glk.select_poll(0), GlkEvent::NoEvent);
}
