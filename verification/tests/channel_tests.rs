use telemetry::channel::Mailbox;
use telemetry::message::{Message, Reading};

#[test]
fn receive_returns_messages_in_send_order() {
    let mut mailbox = Mailbox::new();

    assert_eq!(mailbox.try_send(Message::IndicatorOn), Ok(()));
    assert_eq!(mailbox.try_receive(), Some(Message::IndicatorOn));

    assert_eq!(mailbox.try_send(Message::IndicatorOff), Ok(()));
    assert_eq!(mailbox.try_receive(), Some(Message::IndicatorOff));

    let reading = Message::Reading(Reading::Distance(250));
    assert_eq!(mailbox.try_send(reading), Ok(()));
    assert_eq!(mailbox.try_receive(), Some(reading));
}

#[test]
fn receive_on_empty_mailbox_yields_nothing() {
    let mut mailbox = Mailbox::new();
    assert_eq!(mailbox.try_receive(), None);

    assert_eq!(mailbox.try_send(Message::IndicatorOn), Ok(()));
    assert_eq!(mailbox.try_receive(), Some(Message::IndicatorOn));
    assert_eq!(mailbox.try_receive(), None);
}

#[test]
fn second_send_is_refused_until_the_first_is_drained() {
    let mut mailbox = Mailbox::new();
    let first = Message::Reading(Reading::PressureTemp { pressure_pa: 101325, temp_centi: 2345 });
    let second = Message::IndicatorOn;

    assert_eq!(mailbox.try_send(first), Ok(()));
    // The slot is occupied: the second send is handed back whole, so the
    // producer suspends and retries instead of dropping or overwriting.
    assert_eq!(mailbox.try_send(second), Err(second));
    // The pending message is still the first one, untouched.
    assert_eq!(mailbox.try_receive(), Some(first));
    // Once drained, the retried send goes through.
    assert_eq!(mailbox.try_send(second), Ok(()));
    assert_eq!(mailbox.try_receive(), Some(second));
}

#[test]
fn slow_consumer_never_loses_a_message() {
    let mut mailbox = Mailbox::new();
    let reading = Message::Reading(Reading::Distance(7));

    assert_eq!(mailbox.try_send(reading), Ok(()));
    // A slow consumer: several producer attempts arrive before any receive.
    for _ in 0..5 {
        assert_eq!(mailbox.try_send(Message::IndicatorOn), Err(Message::IndicatorOn));
    }
    // The first message comes out once, exactly as sent.
    assert_eq!(mailbox.try_receive(), Some(reading));
    assert_eq!(mailbox.try_receive(), None);
}
