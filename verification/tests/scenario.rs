use backlight_popup::message::Message;
use backlight_popup::message::MessageHandler;
use backlight_popup::visibility::Action;
use signal_hook::consts::SIGUSR1;
use signal_hook::consts::SIGUSR2;
use signal_hook::low_level::raise;

#[test]
fn signals_drive_the_popup() {
    let mut handler = MessageHandler::setup().unwrap();
    assert_eq!(handler.message(), Message::Draw);
    assert_eq!(handler.tick().action, Action::Redraw);
    assert_eq!(handler.message(), Message::Draw);

    raise(SIGUSR1).unwrap();
    assert_eq!(handler.message(), Message::Hide);
    assert_eq!(handler.tick().action, Action::Hide);
    assert_eq!(handler.message(), Message::Idle);

    assert_eq!(handler.tick().action, Action::Nothing);
    assert_eq!(handler.message(), Message::Idle);

    raise(SIGUSR2).unwrap();
    assert_eq!(handler.message(), Message::Show);
    assert_eq!(handler.tick().action, Action::Show);
    assert_eq!(handler.message(), Message::Draw);

    assert_eq!(handler.tick().action, Action::Redraw);
    assert_eq!(handler.message(), Message::Draw);

    raise(SIGUSR2).unwrap();
    raise(SIGUSR2).unwrap();
    assert_eq!(handler.tick().action, Action::Show);
    assert_eq!(handler.tick().action, Action::Redraw);

    raise(SIGUSR2).unwrap();
    raise(SIGUSR1).unwrap();
    assert_eq!(handler.tick().action, Action::Hide);
    assert_eq!(handler.tick().action, Action::Nothing);

    raise(SIGUSR1).unwrap();
    handler.set_message(Message::Draw);
    assert_eq!(handler.message(), Message::Draw);
}
