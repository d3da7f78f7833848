use vstd::prelude::*;
use crate::format::{decimal_rep, frac_rep, render_pressure, render_temperature, render_value};
use crate::message::{Message, Reading};

verus! {

/// Grid row of the distance field.
pub const ROW_DISTANCE: u8 = 1;

/// Grid row of the pressure field.
pub const ROW_PRESSURE: u8 = 2;

/// Grid row of the temperature field.
pub const ROW_TEMP: u8 = 3;

/// Grid row of the elapsed-time field.
pub const ROW_TIME: u8 = 4;

/// Grid row of the sample-counter field.
pub const ROW_COUNTER: u8 = 5;

/// Grid column where every field's value starts; columns before it hold the
/// field's label, written once at startup.
pub const COL_DATA: u8 = 9;

/// One physical action the rendering context must perform on the devices it
/// owns: the indicator output and the character-grid display.
#[derive(Debug, PartialEq, Eq)]
pub enum Effect {
    /// Assert (`true`) or deassert (`false`) the indicator output.
    SetIndicator(bool),
    /// Clear the whole display.
    Clear,
    /// Move the display cursor to (column, row).
    SetPosition(u8, u8),
    /// Write text at the current cursor.
    WriteText(String),
}

/// The mathematical value of an `Effect`, with text as a character sequence.
pub enum EffectModel {
    SetIndicator(bool),
    Clear,
    SetPosition(u8, u8),
    WriteText(Seq<char>),
}

impl View for Effect {
    type V = EffectModel;

    open spec fn view(&self) -> EffectModel {
        match self {
            Effect::SetIndicator(b) => EffectModel::SetIndicator(*b),
            Effect::Clear => EffectModel::Clear,
            Effect::SetPosition(c, r) => EffectModel::SetPosition(*c, *r),
            Effect::WriteText(s) => EffectModel::WriteText(s@),
        }
    }
}

/// The views of a sequence of effects.
pub open spec fn effects_view(v: Seq<Effect>) -> Seq<EffectModel> {
    v.map_values(|e: Effect| e@)
}

/// The display writes that show one reading's measurement fields: each value
/// is overwritten in place at its fixed position, labels untouched, and a
/// trailing blank wipes any stale longer digits.
pub open spec fn measurement_effects(r: Reading) -> Seq<EffectModel> {
    match r {
        Reading::Distance(d) => seq![
            EffectModel::SetPosition(COL_DATA, ROW_DISTANCE),
            EffectModel::WriteText(decimal_rep(d as nat)),
            EffectModel::WriteText(" "@),
        ],
        Reading::PressureTemp { pressure_pa, temp_centi } => seq![
            EffectModel::SetPosition(COL_DATA, ROW_PRESSURE),
            EffectModel::WriteText(decimal_rep((pressure_pa / 100) as nat)),
            EffectModel::WriteText(" "@),
            EffectModel::SetPosition(COL_DATA, ROW_TEMP),
            EffectModel::WriteText(decimal_rep((temp_centi / 100) as nat)),
            EffectModel::WriteText("."@),
            EffectModel::WriteText(frac_rep((temp_centi % 100) as nat)),
            EffectModel::WriteText(" "@),
        ],
    }
}

/// The display writes for one consumed reading: its measurement fields, then
/// the elapsed-time field, then the sample-counter field showing the counter
/// value before this reading advanced it.
pub open spec fn reading_effects(r: Reading, now_millis: u64, counter: u64) -> Seq<EffectModel> {
    measurement_effects(r) + seq![
        EffectModel::SetPosition(COL_DATA, ROW_TIME),
        EffectModel::WriteText(decimal_rep(now_millis as nat)),
        EffectModel::SetPosition(COL_DATA, ROW_COUNTER),
        EffectModel::WriteText(decimal_rep(counter as nat)),
    ]
}

/// The effects for one consumed message: an indicator request touches only
/// the indicator, a reading touches only the display.
pub open spec fn step_effects(msg: Message, now_millis: u64, counter: u64) -> Seq<EffectModel> {
    match msg {
        Message::IndicatorOn => seq![EffectModel::SetIndicator(true)],
        Message::IndicatorOff => seq![EffectModel::SetIndicator(false)],
        Message::Reading(r) => reading_effects(r, now_millis, counter),
    }
}

/// The sample counter after one message: a reading advances it by exactly
/// one, an indicator request leaves it alone.
pub open spec fn step_counter(msg: Message, counter: int) -> int {
    if msg is Reading {
        counter + 1
    } else {
        counter
    }
}

/// The sample counter after one message, within the counter's width; the
/// wrap-around case never arises under the no-overflow preconditions below.
pub open spec fn step_counter_u64(msg: Message, counter: u64) -> u64 {
    if msg is Reading {
        (counter + 1) as u64
    } else {
        counter
    }
}

/// The sample counter after a whole message sequence, starting from `c`.
pub open spec fn counter_after(msgs: Seq<Message>, c: int) -> int
    decreases msgs.len(),
{
    if msgs.len() == 0 {
        c
    } else {
        counter_after(msgs.drop_first(), step_counter(msgs[0], c))
    }
}

/// How many of the messages are readings.
pub open spec fn count_readings(msgs: Seq<Message>) -> nat
    decreases msgs.len(),
{
    if msgs.len() == 0 {
        0
    } else {
        (if msgs[0] is Reading {
            1nat
        } else {
            0nat
        }) + count_readings(msgs.drop_first())
    }
}

/// Consuming messages moves the sample counter up by exactly the number of
/// readings among them: monotone, no skips, no double counts.
pub proof fn lemma_counter_counts_readings(msgs: Seq<Message>, c: int)
    ensures
        counter_after(msgs, c) == c + count_readings(msgs),
    decreases msgs.len(),
{
    if msgs.len() == 0 {
    } else {
        lemma_counter_counts_readings(msgs.drop_first(), step_counter(msgs[0], c));
    }
}

/// The effects of consuming a whole message sequence in order, all at one
/// clock reading, starting with the counter at `c`.
pub open spec fn effects_after(msgs: Seq<Message>, now_millis: u64, c: u64) -> Seq<EffectModel>
    decreases msgs.len(),
{
    if msgs.len() == 0 {
        Seq::empty()
    } else {
        step_effects(msgs[0], now_millis, c) + effects_after(
            msgs.drop_first(),
            now_millis,
            step_counter_u64(msgs[0], c),
        )
    }
}

/// Whether a cursor move stays within the value regions: the data column of
/// one of the field rows. The label columns, written once at startup, are
/// never touched again.
pub open spec fn moves_to_a_field(e: EffectModel) -> bool {
    match e {
        EffectModel::SetPosition(col, row) => col == COL_DATA && (row == ROW_DISTANCE || row
            == ROW_PRESSURE || row == ROW_TEMP || row == ROW_TIME || row == ROW_COUNTER),
        _ => true,
    }
}

/// Every field keeps its place: in the effects of any consumed message, every
/// cursor move points at the fixed data position of one of the fields, so
/// steady-state rendering only ever overwrites field values, never labels.
pub proof fn lemma_fields_keep_their_places(msg: Message, now_millis: u64, counter: u64, j: int)
    requires
        0 <= j < step_effects(msg, now_millis, counter).len(),
    ensures
        moves_to_a_field(step_effects(msg, now_millis, counter)[j]),
{
}

/// Effect views distribute over concatenation: the views of two effect lists
/// laid end to end are the two lists' views laid end to end.
pub proof fn lemma_effects_view_concat(a: Seq<Effect>, b: Seq<Effect>)
    ensures
        effects_view(a + b) =~= effects_view(a) + effects_view(b),
{
    assert forall|j: int| 0 <= j < (a + b).len() implies effects_view(a + b)[j] == (effects_view(a)
        + effects_view(b))[j] by {
        if j < a.len() {
            assert((a + b)[j] == a[j]);
        } else {
            assert((a + b)[j] == b[j - a.len()]);
        }
    }
}

/// The rendering context's own state: the zero-based count of readings
/// consumed so far.
pub struct Renderer {
    /// Advances by one per reading consumed; never by more, never by less.
    /// The width is 64 bits, and rather than wrap or saturate, the contracts
    /// rule overflow out: the caller keeps the counter below its maximum.
    pub counter: u64,
}

impl Renderer {
    /// A fresh renderer with the counter at zero.
    pub fn new() -> (r: Renderer)
        ensures
            r.counter == 0,
    {
        Renderer { counter: 0 }
    }

    /// Consumes one message and returns the physical actions it demands, in
    /// order. Indicator requests produce exactly one indicator action and
    /// leave the counter alone; a reading produces the display writes of
    /// `reading_effects` and then advances the counter by exactly one.
    pub fn handle_message(&mut self, msg: Message, now_millis: u64) -> (effects: Vec<Effect>)
        requires
            msg is Reading ==> old(self).counter < u64::MAX,
        ensures
            final(self).counter as int == step_counter(msg, old(self).counter as int),
            effects_view(effects@) =~= step_effects(msg, now_millis, old(self).counter),
    {
        let mut effects: Vec<Effect> = Vec::new();
        match msg {
            Message::IndicatorOn => {
                effects.push(Effect::SetIndicator(true));
            },
            Message::IndicatorOff => {
                effects.push(Effect::SetIndicator(false));
            },
            Message::Reading(r) => {
                match r {
                    Reading::Distance(d) => {
                        effects.push(Effect::SetPosition(COL_DATA, ROW_DISTANCE));
                        effects.push(Effect::WriteText(render_value(d as u64)));
                        effects.push(Effect::WriteText(" ".to_owned()));
                    },
                    Reading::PressureTemp { pressure_pa, temp_centi } => {
                        effects.push(Effect::SetPosition(COL_DATA, ROW_PRESSURE));
                        effects.push(Effect::WriteText(render_pressure(pressure_pa)));
                        effects.push(Effect::WriteText(" ".to_owned()));
                        let (whole, frac) = render_temperature(temp_centi);
                        effects.push(Effect::SetPosition(COL_DATA, ROW_TEMP));
                        effects.push(Effect::WriteText(whole));
                        effects.push(Effect::WriteText(".".to_owned()));
                        effects.push(Effect::WriteText(frac));
                        effects.push(Effect::WriteText(" ".to_owned()));
                    },
                }
                effects.push(Effect::SetPosition(COL_DATA, ROW_TIME));
                effects.push(Effect::WriteText(render_value(now_millis)));
                effects.push(Effect::SetPosition(COL_DATA, ROW_COUNTER));
                effects.push(Effect::WriteText(render_value(self.counter)));
                self.counter = self.counter + 1;
            },
        }
        effects
    }

    /// Consumes a burst of messages in order, at one clock reading, and
    /// returns all their effects in order. The counter ends up advanced by
    /// exactly the number of readings in the burst: N readings move it from
    /// its old value to that value plus N, with no skips and no double
    /// counts.
    pub fn handle_all(&mut self, msgs: &Vec<Message>, now_millis: u64) -> (effects: Vec<Effect>)
        requires
            old(self).counter + count_readings(msgs@) <= u64::MAX,
        ensures
            final(self).counter as int == counter_after(msgs@, old(self).counter as int),
            final(self).counter == old(self).counter + count_readings(msgs@),
            effects_view(effects@) =~= effects_after(msgs@, now_millis, old(self).counter),
    {
        proof {
            lemma_counter_counts_readings(msgs@, old(self).counter as int);
            assert(msgs@.skip(0) =~= msgs@);
        }
        let ghost c0 = old(self).counter;
        let mut effects: Vec<Effect> = Vec::new();
        let mut i: usize = 0;
        while i < msgs.len()
            invariant
                0 <= i <= msgs@.len(),
                self.counter as int + count_readings(msgs@.skip(i as int)) <= u64::MAX,
                counter_after(msgs@, c0 as int) == counter_after(
                    msgs@.skip(i as int),
                    self.counter as int,
                ),
                effects_after(msgs@, now_millis, c0) =~= effects_view(effects@) + effects_after(
                    msgs@.skip(i as int),
                    now_millis,
                    self.counter,
                ),
            decreases msgs@.len() - i,
        {
            let ghost suffix = msgs@.skip(i as int);
            proof {
                assert(suffix[0] == msgs@[i as int]);
                assert(suffix.drop_first() =~= msgs@.skip(i as int + 1));
                lemma_counter_counts_readings(suffix.drop_first(), step_counter(
                    suffix[0],
                    self.counter as int,
                ));
                lemma_counter_counts_readings(suffix, self.counter as int);
            }
            let mut step = self.handle_message(msgs[i], now_millis);
            let ghost stepv = step@;
            let ghost before = effects@;
            effects.append(&mut step);
            proof {
                lemma_effects_view_concat(before, stepv);
            }
            i = i + 1;
        }
        proof {
            assert(msgs@.skip(msgs@.len() as int) =~= Seq::<Message>::empty());
            assert(effects_view(effects@) =~= effects_after(msgs@, now_millis, c0));
        }
        effects
    }
}

/// The startup effects written once before any message is consumed: clear the
/// display, write the title, then each field's label at its fixed position.
/// Only field values are ever overwritten afterwards.
pub open spec fn startup_effects_spec() -> Seq<EffectModel> {
    seq![
        EffectModel::Clear,
        EffectModel::WriteText("Telemetry\n"@),
        EffectModel::SetPosition(0, ROW_DISTANCE),
        EffectModel::WriteText("Dist:"@),
        EffectModel::SetPosition(0, ROW_PRESSURE),
        EffectModel::WriteText("Pressure:"@),
        EffectModel::SetPosition(0, ROW_TEMP),
        EffectModel::WriteText("Temp:"@),
        EffectModel::SetPosition(0, ROW_TIME),
        EffectModel::WriteText("Time:"@),
        EffectModel::SetPosition(0, ROW_COUNTER),
        EffectModel::WriteText("Counter:"@),
    ]
}

/// Builds the startup effects of `startup_effects_spec`.
pub fn startup_effects() -> (effects: Vec<Effect>)
    ensures
        effects_view(effects@) =~= startup_effects_spec(),
{
    let mut effects: Vec<Effect> = Vec::new();
    effects.push(Effect::Clear);
    effects.push(Effect::WriteText("Telemetry\n".to_owned()));
    effects.push(Effect::SetPosition(0, ROW_DISTANCE));
    effects.push(Effect::WriteText("Dist:".to_owned()));
    effects.push(Effect::SetPosition(0, ROW_PRESSURE));
    effects.push(Effect::WriteText("Pressure:".to_owned()));
    effects.push(Effect::SetPosition(0, ROW_TEMP));
    effects.push(Effect::WriteText("Temp:".to_owned()));
    effects.push(Effect::SetPosition(0, ROW_TIME));
    effects.push(Effect::WriteText("Time:".to_owned()));
    effects.push(Effect::SetPosition(0, ROW_COUNTER));
    effects.push(Effect::WriteText("Counter:".to_owned()));
    effects
}

} // verus!
