use backlight_popup::message::Message;
use backlight_popup::message::MessageHandler;
use backlight_popup::visibility::Action;
use backlight_popup::visibility::Transition;

const ALL: [Message; 4] = [Message::Draw, Message::Hide, Message::Idle, Message::Show];

#[test]
fn new_mailbox_holds_draw() {
    let handler = MessageHandler::new();
    assert_eq!(handler.message(), Message::Draw);
}

#[test]
fn read_returns_what_was_written() {
    let mut handler = MessageHandler::new();
    for message in ALL {
        handler.set_message(message);
        assert_eq!(handler.message(), message);
    }
}

#[test]
fn read_does_not_consume() {
    let mut handler = MessageHandler::new();
    handler.set_message(Message::Show);
    assert_eq!(handler.message(), Message::Show);
    assert_eq!(handler.message(), Message::Show);
    assert_eq!(handler.message(), Message::Show);
}

#[test]
fn last_write_wins() {
    let mut handler = MessageHandler::new();
    for first in ALL {
        for second in ALL {
            for third in ALL {
                handler.set_message(first);
                handler.set_message(second);
                handler.set_message(third);
                assert_eq!(handler.message(), third);
            }
        }
    }
}

#[test]
fn last_write_wins_over_a_long_sequence() {
    let mut handler = MessageHandler::new();
    let mut last = Message::Draw;
    for round in 0..1000usize {
        last = ALL[(round * 7 + round / 3) % 4];
        handler.set_message(last);
    }
    assert_eq!(handler.message(), last);
}

#[test]
fn mailboxes_are_independent() {
    let mut first = MessageHandler::new();
    let mut second = MessageHandler::new();
    first.set_message(Message::Hide);
    second.set_message(Message::Show);
    assert_eq!(first.message(), Message::Hide);
    assert_eq!(second.message(), Message::Show);
}

#[test]
fn tick_on_draw_redraws_and_keeps_draw() {
    let mut handler = MessageHandler::new();
    let step = handler.tick();
    assert_eq!(
        step,
        Transition { observed: Message::Draw, action: Action::Redraw, reply: None }
    );
    assert_eq!(handler.message(), Message::Draw);
}

#[test]
fn tick_on_hide_hides_and_leaves_idle() {
    let mut handler = MessageHandler::new();
    handler.set_message(Message::Hide);
    let step = handler.tick();
    assert_eq!(
        step,
        Transition { observed: Message::Hide, action: Action::Hide, reply: Some(Message::Idle) }
    );
    assert_eq!(handler.message(), Message::Idle);
}

#[test]
fn tick_on_idle_does_nothing_and_keeps_idle() {
    let mut handler = MessageHandler::new();
    handler.set_message(Message::Idle);
    let step = handler.tick();
    assert_eq!(
        step,
        Transition { observed: Message::Idle, action: Action::Nothing, reply: None }
    );
    assert_eq!(handler.message(), Message::Idle);
}

#[test]
fn tick_on_show_shows_and_leaves_draw() {
    let mut handler = MessageHandler::new();
    handler.set_message(Message::Show);
    let step = handler.tick();
    assert_eq!(
        step,
        Transition { observed: Message::Show, action: Action::Show, reply: Some(Message::Draw) }
    );
    assert_eq!(handler.message(), Message::Draw);
}

#[test]
fn idle_ticks_are_idempotent() {
    let mut handler = MessageHandler::new();
    handler.set_message(Message::Idle);
    for _ in 0..100 {
        let step = handler.tick();
        assert_eq!(step.action, Action::Nothing);
        assert_eq!(step.reply, None);
        assert_eq!(handler.message(), Message::Idle);
    }
}

#[test]
fn draw_is_sticky() {
    let mut handler = MessageHandler::new();
    for _ in 0..100 {
        let step = handler.tick();
        assert_eq!(step.action, Action::Redraw);
        assert_eq!(step.reply, None);
        assert_eq!(handler.message(), Message::Draw);
    }
}

#[test]
fn two_shows_before_a_tick_show_once() {
    let mut handler = MessageHandler::new();
    handler.set_message(Message::Idle);
    handler.set_message(Message::Show);
    handler.set_message(Message::Show);
    let mut shows = 0;
    let first = handler.tick();
    if first.action == Action::Show {
        shows += 1;
    }
    assert_eq!(handler.message(), Message::Draw);
    for _ in 0..10 {
        if handler.tick().action == Action::Show {
            shows += 1;
        }
    }
    assert_eq!(shows, 1);
    assert_eq!(handler.message(), Message::Draw);
}

#[test]
fn hide_is_served_once() {
    let mut handler = MessageHandler::new();
    handler.set_message(Message::Hide);
    let mut hides = 0;
    for _ in 0..10 {
        if handler.tick().action == Action::Hide {
            hides += 1;
        }
    }
    assert_eq!(hides, 1);
    assert_eq!(handler.message(), Message::Idle);
}

#[test]
fn show_overtaken_by_hide_only_hides() {
    let mut handler = MessageHandler::new();
    handler.set_message(Message::Show);
    handler.set_message(Message::Hide);
    assert_eq!(handler.tick().action, Action::Hide);
    assert_eq!(handler.tick().action, Action::Nothing);
    assert_eq!(handler.message(), Message::Idle);
}

#[test]
fn redraw_hide_idle_show_redraw() {
    let mut handler = MessageHandler::new();
    assert_eq!(handler.message(), Message::Draw);

    assert_eq!(handler.tick().action, Action::Redraw);
    assert_eq!(handler.message(), Message::Draw);

    handler.set_message(Message::Hide);
    assert_eq!(handler.tick().action, Action::Hide);
    assert_eq!(handler.message(), Message::Idle);

    assert_eq!(handler.tick().action, Action::Nothing);
    assert_eq!(handler.message(), Message::Idle);

    handler.set_message(Message::Show);
    assert_eq!(handler.tick().action, Action::Show);
    assert_eq!(handler.message(), Message::Draw);

    assert_eq!(handler.tick().action, Action::Redraw);
    assert_eq!(handler.message(), Message::Draw);
}
