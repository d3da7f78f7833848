use vstd::prelude::*;
use crate::channel::Mailbox;
use crate::message::{Message, Reading};
use crate::producer::{cycle_seq, trace_of};
use crate::render::{
    effects_view, lemma_effects_view_concat, step_counter, step_effects, Effect, EffectModel,
    Renderer,
};

verus! {

/// The effects of a run of whole cycles consumed in order, all at one clock
/// reading, starting with the counter at `c`: each cycle's indicator pulse,
/// then its reading's display writes, the counter advancing between cycles.
pub open spec fn cycles_effects(readings: Seq<Reading>, now_millis: u64, c: u64) -> Seq<
    EffectModel,
>
    decreases readings.len(),
{
    if readings.len() == 0 {
        Seq::empty()
    } else {
        step_effects(Message::IndicatorOn, now_millis, c) + step_effects(
            Message::IndicatorOff,
            now_millis,
            c,
        ) + step_effects(Message::Reading(readings[0]), now_millis, c) + cycles_effects(
            readings.drop_first(),
            now_millis,
            (c + 1) as u64,
        )
    }
}

/// Hands one message across the mailbox and lets the renderer consume it:
/// deposit, remove, dispatch. With capacity one, the deposit is only possible
/// into an empty slot, and the removal drains it again.
pub fn hand_off(chan: &mut Mailbox, rend: &mut Renderer, msg: Message, now_millis: u64) -> (effects:
    Vec<Effect>)
    requires
        old(chan).wf(),
        old(chan).pending() is None,
        old(rend).counter < u64::MAX,
    ensures
        final(chan).wf(),
        final(chan).pending() is None,
        final(chan).sent_log() == old(chan).sent_log().push(msg),
        final(chan).received_log() == old(chan).received_log().push(msg),
        final(rend).counter as int == step_counter(msg, old(rend).counter as int),
        effects_view(effects@) =~= step_effects(msg, now_millis, old(rend).counter),
{
    let _ = chan.try_send(msg);
    let got = chan.try_receive();
    let m = got.unwrap();
    proof {
        assert(chan.received_log() =~= old(chan).received_log().push(msg));
    }
    rend.handle_message(m, now_millis)
}

/// Drives one complete sampling cycle end to end: the producer's three
/// messages for `reading` pass through the mailbox one at a time (capacity
/// one forces the alternation) and the renderer consumes each in turn. The
/// mailbox ends drained, both logs grow by exactly the cycle, the counter
/// advances by exactly one, and the effects are the three messages' effects
/// in order.
pub fn pump_cycle(chan: &mut Mailbox, rend: &mut Renderer, reading: Reading, now_millis: u64) -> (effects:
    Vec<Effect>)
    requires
        old(chan).wf(),
        old(chan).pending() is None,
        old(rend).counter < u64::MAX,
    ensures
        final(chan).wf(),
        final(chan).pending() is None,
        final(chan).sent_log() =~= old(chan).sent_log() + cycle_seq(reading),
        final(chan).received_log() =~= old(chan).received_log() + cycle_seq(reading),
        final(rend).counter == old(rend).counter + 1,
        effects_view(effects@) =~= step_effects(Message::IndicatorOn, now_millis, old(rend).counter)
            + step_effects(Message::IndicatorOff, now_millis, old(rend).counter) + step_effects(
            Message::Reading(reading),
            now_millis,
            old(rend).counter,
        ),
{
    let mut effects = hand_off(chan, rend, Message::IndicatorOn, now_millis);
    let mut off_effects = hand_off(chan, rend, Message::IndicatorOff, now_millis);
    effects.append(&mut off_effects);
    let mut reading_effects = hand_off(chan, rend, Message::Reading(reading), now_millis);
    effects.append(&mut reading_effects);
    effects
}

/// Drives a whole run of sampling cycles, one per acquired reading, at one
/// clock reading. The mailbox's two logs both grow by exactly the producer's
/// trace for those readings — nothing lost, duplicated or reordered across
/// the hand-off — the counter advances by exactly the number of readings, and
/// the effects are the cycles' effects in order.
pub fn pump_all(
    chan: &mut Mailbox,
    rend: &mut Renderer,
    readings: &Vec<Reading>,
    now_millis: u64,
) -> (effects: Vec<Effect>)
    requires
        old(chan).wf(),
        old(chan).pending() is None,
        old(rend).counter + readings@.len() <= u64::MAX,
    ensures
        final(chan).wf(),
        final(chan).pending() is None,
        final(chan).sent_log() =~= old(chan).sent_log() + trace_of(readings@),
        final(chan).received_log() =~= old(chan).received_log() + trace_of(readings@),
        final(rend).counter == old(rend).counter + readings@.len(),
        effects_view(effects@) =~= cycles_effects(readings@, now_millis, old(rend).counter),
{
    proof {
        assert(readings@.skip(0) =~= readings@);
    }
    let ghost c0 = rend.counter;
    let ghost sent0 = chan.sent_log();
    let ghost received0 = chan.received_log();
    let mut effects: Vec<Effect> = Vec::new();
    let mut i: usize = 0;
    while i < readings.len()
        invariant
            0 <= i <= readings@.len(),
            chan.wf(),
            chan.pending() is None,
            rend.counter == c0 + i,
            c0 + readings@.len() <= u64::MAX,
            sent0 + trace_of(readings@) =~= chan.sent_log() + trace_of(readings@.skip(i as int)),
            received0 + trace_of(readings@) =~= chan.received_log() + trace_of(
                readings@.skip(i as int),
            ),
            cycles_effects(readings@, now_millis, c0) =~= effects_view(effects@) + cycles_effects(
                readings@.skip(i as int),
                now_millis,
                rend.counter,
            ),
        decreases readings@.len() - i,
    {
        let ghost suffix = readings@.skip(i as int);
        proof {
            assert(suffix[0] == readings@[i as int]);
            assert(suffix.drop_first() =~= readings@.skip(i as int + 1));
        }
        let mut step = pump_cycle(chan, rend, readings[i], now_millis);
        let ghost stepv = step@;
        let ghost before = effects@;
        effects.append(&mut step);
        proof {
            lemma_effects_view_concat(before, stepv);
        }
        i = i + 1;
    }
    proof {
        assert(readings@.skip(readings@.len() as int) =~= Seq::<Reading>::empty());
    }
    effects
}

} // verus!
