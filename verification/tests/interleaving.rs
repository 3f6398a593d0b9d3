use backlight_popup::message::Message;
use backlight_popup::message::MessageHandler;
use backlight_popup::visibility::transition;
use signal_hook::consts::SIGUSR1;
use signal_hook::consts::SIGUSR2;
use signal_hook::low_level::raise;

const ALL: [Message; 4] = [Message::Draw, Message::Hide, Message::Idle, Message::Show];

#[test]
fn interleaved_writers_never_tear() {
    let mut handler = MessageHandler::setup().unwrap();
    for round in 0..5_000usize {
        let written = ALL[round % 4];
        handler.set_message(written);
        assert_eq!(handler.message(), written);

        let signal = if round % 3 == 0 { SIGUSR1 } else { SIGUSR2 };
        let stored = if round % 3 == 0 { Message::Hide } else { Message::Show };
        raise(signal).unwrap();
        let found = handler.message();
        assert_eq!(found, stored);
        assert!(ALL.contains(&found));

        if round % 5 == 0 {
            handler.set_message(ALL[(round / 5) % 4]);
        }
        let step = handler.tick();
        assert_eq!(step, transition(step.observed));
        assert!(ALL.contains(&handler.message()));
    }
}
