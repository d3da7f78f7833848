use telemetry::message::{Message, Reading};
use telemetry::render::{
    startup_effects, Effect, Renderer, COL_DATA, ROW_COUNTER, ROW_DISTANCE, ROW_PRESSURE,
    ROW_TEMP, ROW_TIME,
};

#[test]
fn indicator_messages_touch_only_the_indicator() {
    let mut renderer = Renderer::new();

    let effects = renderer.handle_message(Message::IndicatorOn, 42);
    assert_eq!(effects, vec![Effect::SetIndicator(true)]);
    assert_eq!(renderer.counter, 0);

    let effects = renderer.handle_message(Message::IndicatorOff, 42);
    assert_eq!(effects, vec![Effect::SetIndicator(false)]);
    assert_eq!(renderer.counter, 0);
}

#[test]
fn pressure_temperature_reading_writes_every_field() {
    let mut renderer = Renderer::new();
    let reading = Message::Reading(Reading::PressureTemp { pressure_pa: 101325, temp_centi: 2345 });

    let effects = renderer.handle_message(reading, 5000);
    assert_eq!(
        effects,
        vec![
            Effect::SetPosition(COL_DATA, ROW_PRESSURE),
            Effect::WriteText("1013".to_owned()),
            Effect::WriteText(" ".to_owned()),
            Effect::SetPosition(COL_DATA, ROW_TEMP),
            Effect::WriteText("23".to_owned()),
            Effect::WriteText(".".to_owned()),
            Effect::WriteText("45".to_owned()),
            Effect::WriteText(" ".to_owned()),
            Effect::SetPosition(COL_DATA, ROW_TIME),
            Effect::WriteText("5000".to_owned()),
            Effect::SetPosition(COL_DATA, ROW_COUNTER),
            Effect::WriteText("0".to_owned()),
        ]
    );
    assert_eq!(renderer.counter, 1);
}

#[test]
fn distance_reading_writes_distance_time_and_counter() {
    let mut renderer = Renderer::new();

    let effects = renderer.handle_message(Message::Reading(Reading::Distance(250)), 1234);
    assert_eq!(
        effects,
        vec![
            Effect::SetPosition(COL_DATA, ROW_DISTANCE),
            Effect::WriteText("250".to_owned()),
            Effect::WriteText(" ".to_owned()),
            Effect::SetPosition(COL_DATA, ROW_TIME),
            Effect::WriteText("1234".to_owned()),
            Effect::SetPosition(COL_DATA, ROW_COUNTER),
            Effect::WriteText("0".to_owned()),
        ]
    );
    assert_eq!(renderer.counter, 1);
}

#[test]
fn counter_advances_once_per_reading_and_only_then() {
    let mut renderer = Renderer::new();
    let messages = [
        Message::IndicatorOn,
        Message::IndicatorOff,
        Message::Reading(Reading::Distance(1)),
        Message::IndicatorOn,
        Message::IndicatorOff,
        Message::Reading(Reading::Distance(2)),
        Message::Reading(Reading::PressureTemp { pressure_pa: 100000, temp_centi: 2000 }),
    ];

    let mut expected: u64 = 0;
    for message in messages {
        let before = renderer.counter;
        renderer.handle_message(message, 0);
        if matches!(message, Message::Reading(_)) {
            expected += 1;
            assert_eq!(renderer.counter, before + 1);
        } else {
            assert_eq!(renderer.counter, before);
        }
    }
    assert_eq!(renderer.counter, expected);
    assert_eq!(renderer.counter, 3);
}

#[test]
fn counter_field_shows_the_count_before_the_reading() {
    let mut renderer = Renderer::new();
    for expected in 0..4u64 {
        let effects = renderer.handle_message(Message::Reading(Reading::Distance(9)), 0);
        let last = effects.last().unwrap();
        assert_eq!(*last, Effect::WriteText(format!("{expected}")));
    }
    assert_eq!(renderer.counter, 4);
}

#[test]
fn startup_clears_then_labels_every_field_once() {
    let effects = startup_effects();
    assert_eq!(
        effects,
        vec![
            Effect::Clear,
            Effect::WriteText("Telemetry\n".to_owned()),
            Effect::SetPosition(0, ROW_DISTANCE),
            Effect::WriteText("Dist:".to_owned()),
            Effect::SetPosition(0, ROW_PRESSURE),
            Effect::WriteText("Pressure:".to_owned()),
            Effect::SetPosition(0, ROW_TEMP),
            Effect::WriteText("Temp:".to_owned()),
            Effect::SetPosition(0, ROW_TIME),
            Effect::WriteText("Time:".to_owned()),
            Effect::SetPosition(0, ROW_COUNTER),
            Effect::WriteText("Counter:".to_owned()),
        ]
    );
}
