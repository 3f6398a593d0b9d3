use backlight_popup::message::Message;
use backlight_popup::visibility::transition;
use backlight_popup::visibility::Action;
use backlight_popup::visibility::Transition;

#[test]
fn draw_redraws_and_stores_nothing() {
    assert_eq!(
        transition(Message::Draw),
        Transition { observed: Message::Draw, action: Action::Redraw, reply: None }
    );
}

#[test]
fn hide_hides_and_stores_idle() {
    assert_eq!(
        transition(Message::Hide),
        Transition { observed: Message::Hide, action: Action::Hide, reply: Some(Message::Idle) }
    );
}

#[test]
fn idle_does_nothing_and_stores_nothing() {
    assert_eq!(
        transition(Message::Idle),
        Transition { observed: Message::Idle, action: Action::Nothing, reply: None }
    );
}

#[test]
fn show_shows_and_stores_draw() {
    assert_eq!(
        transition(Message::Show),
        Transition { observed: Message::Show, action: Action::Show, reply: Some(Message::Draw) }
    );
}

#[test]
fn transition_is_deterministic() {
    for message in [Message::Draw, Message::Hide, Message::Idle, Message::Show] {
        assert_eq!(transition(message), transition(message));
        assert_eq!(transition(message).observed, message);
    }
}

#[test]
fn replies_are_never_requests() {
    for message in [Message::Draw, Message::Hide, Message::Idle, Message::Show] {
        let reply = transition(message).reply;
        assert_ne!(reply, Some(Message::Hide));
        assert_ne!(reply, Some(Message::Show));
    }
}
