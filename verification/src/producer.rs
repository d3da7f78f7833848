use vstd::prelude::*;
use crate::message::{Message, Reading};

verus! {

/// Milliseconds the sampling context rests after announcing a reading, before
/// it starts the next cycle.
pub const CYCLE_REST_MILLIS: u64 = 997;

/// The messages one sampling cycle emits, in order: pulse the indicator on,
/// pulse it off once the sample is acquired, then announce the completed
/// reading. No partial reading is ever sent: the sample is whole before the
/// message exists.
pub open spec fn cycle_seq(r: Reading) -> Seq<Message> {
    seq![Message::IndicatorOn, Message::IndicatorOff, Message::Reading(r)]
}

/// The full send log of a sampling context that has completed the given
/// readings, one cycle after another.
pub open spec fn trace_of(readings: Seq<Reading>) -> Seq<Message>
    decreases readings.len(),
{
    if readings.len() == 0 {
        Seq::empty()
    } else {
        cycle_seq(readings[0]) + trace_of(readings.drop_first())
    }
}

/// Builds one cycle's messages for a freshly acquired reading.
pub fn cycle_messages(r: Reading) -> (msgs: Vec<Message>)
    ensures
        msgs@ =~= cycle_seq(r),
{
    let mut msgs: Vec<Message> = Vec::new();
    msgs.push(Message::IndicatorOn);
    msgs.push(Message::IndicatorOff);
    msgs.push(Message::Reading(r));
    msgs
}

/// Indicator pulses bracket every reading: wherever a `Reading` message
/// stands in the producer's send log, the two messages immediately before it
/// are `IndicatorOn` and then `IndicatorOff`.
pub proof fn lemma_pulses_bracket_readings(readings: Seq<Reading>, i: int)
    requires
        0 <= i < trace_of(readings).len(),
        trace_of(readings)[i] is Reading,
    ensures
        2 <= i,
        trace_of(readings)[i - 1] == Message::IndicatorOff,
        trace_of(readings)[i - 2] == Message::IndicatorOn,
    decreases readings.len(),
{
    let t = trace_of(readings);
    let rest = trace_of(readings.drop_first());
    assert(t == cycle_seq(readings[0]) + rest);
    if i < 3 {
        assert(t[0] == Message::IndicatorOn);
        assert(t[1] == Message::IndicatorOff);
        assert(t[2] == Message::Reading(readings[0]));
        assert(i == 2);
    } else {
        assert(t[i] == rest[i - 3]);
        lemma_pulses_bracket_readings(readings.drop_first(), i - 3);
        assert(2 <= i - 3);
        assert(t[i - 1] == rest[i - 4]);
        assert(t[i - 2] == rest[i - 5]);
    }
}

} // verus!
