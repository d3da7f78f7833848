use vstd::prelude::*;

verus! {

/// One completed sensor sample, carried as plain fixed-point integers so that
/// rendering can truncate digit groups without floating-point conversion.
#[derive(Clone, Copy, Debug, PartialEq, Eq, Structural)]
pub enum Reading {
    /// A single distance measurement, in whole units.
    Distance(u32),
    /// A pressure in whole pascals and a temperature in hundredths of a
    /// degree, both truncated toward zero at acquisition.
    PressureTemp { pressure_pa: u32, temp_centi: u32 },
}

/// The protocol between the sampling context and the rendering context: the
/// consumer must handle every variant, with no catch-all.
#[derive(Clone, Copy, Debug, PartialEq, Eq, Structural)]
pub enum Message {
    /// Request to assert the physical indicator.
    IndicatorOn,
    /// Request to deassert the physical indicator.
    IndicatorOff,
    /// One completed sensor sample.
    Reading(Reading),
}

} // verus!
