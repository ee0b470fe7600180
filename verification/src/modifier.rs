//! The transform rules: sensitivity scaling, deadzone suppression and
//! button remapping, applied to one report at a time.

use vstd::prelude::*;
use vstd::arithmetic::power2::lemma_pow2_pos;
use vstd::arithmetic::div_mod::lemma_fundamental_div_mod;
use crate::multiplier::Multiplier;
use crate::multiplier::half_up;
use crate::multiplier::lemma_unit_scale;
use crate::report::MouseReport;

verus! {

/// Transform configuration, fixed for the lifetime of a relay session.
#[derive(Clone, Copy, Debug)]
pub struct Config {
    /// Multiplier applied to `dx` and `dy` before rounding.
    pub sensitivity: Multiplier,
    /// Whether the primary and secondary buttons change places.
    pub remap_buttons: bool,
    /// A scaled axis delta whose magnitude is below this value becomes zero.
    pub deadzone_threshold: u16,
    /// Reserved bound on acceleration; carried, not enforced.
    pub max_acceleration: Multiplier,
}

/// Applies a configuration to pointer reports.
#[derive(Clone, Copy, Debug)]
pub struct InputModifier {
    pub config: Config,
}

/// The button mask with bit 0 and bit 1 exchanged.
pub open spec fn swapped_buttons(b: u8) -> u8 {
    (b & 0xfc) | ((b & 0x01) << 1) | ((b & 0x02) >> 1)
}

/// The magnitude of `v`.
pub open spec fn magnitude(v: int) -> int {
    if v >= 0 {
        v
    } else {
        -v
    }
}

/// `v`, or zero where its magnitude is below `threshold`.
pub open spec fn deadzoned(v: int, threshold: int) -> int {
    if magnitude(v) < threshold {
        0
    } else {
        v
    }
}

/// One axis after scaling and deadzone suppression.
pub open spec fn transformed_axis(delta: i16, c: Config) -> i16 {
    deadzoned(c.sensitivity.scaled(delta as int), c.deadzone_threshold as int) as i16
}

/// The report that `r` becomes under `c`: each axis scaled, rounded half
/// away from zero, clamped and passed through the deadzone; the two low
/// button bits exchanged if remapping is on; the wheel untouched.
pub open spec fn transformed(r: MouseReport, c: Config) -> MouseReport {
    MouseReport {
        buttons: if c.remap_buttons {
            swapped_buttons(r.buttons)
        } else {
            r.buttons
        },
        dx: transformed_axis(r.dx, c),
        dy: transformed_axis(r.dy, c),
        wheel: r.wheel,
    }
}

/// Whether two reports differ in what a transform can change: buttons,
/// `dx` or `dy`. The wheel is left out, since no transform touches it.
pub open spec fn differs(before: MouseReport, after: MouseReport) -> bool {
    before.buttons != after.buttons || before.dx != after.dx || before.dy != after.dy
}

impl Default for Config {
    /// Sensitivity one, no remapping, a deadzone threshold of one and an
    /// acceleration bound of ten.
    fn default() -> (c: Config)
        ensures
            c.sensitivity.is_unit(),
            !c.remap_buttons,
            c.deadzone_threshold == 1,
            c.max_acceleration.spec_mantissa() == 5,
            c.max_acceleration.spec_exponent() == 1,
    {
        let ten = Multiplier::new(5, 1);
        Config {
            sensitivity: Multiplier::one(),
            remap_buttons: false,
            deadzone_threshold: 1,
            max_acceleration: ten.unwrap(),
        }
    }
}

impl Config {
    /// The configuration with its sensitivity and remapping replaced, as
    /// explicit overrides replace what was loaded.
    pub fn with_overrides(self, sensitivity: Multiplier, remap_buttons: bool) -> (c: Config)
        ensures
            c.sensitivity == sensitivity,
            c.remap_buttons == remap_buttons,
            c.deadzone_threshold == self.deadzone_threshold,
            c.max_acceleration == self.max_acceleration,
    {
        Config {
            sensitivity,
            remap_buttons,
            deadzone_threshold: self.deadzone_threshold,
            max_acceleration: self.max_acceleration,
        }
    }
}

/// Exchanges the primary and secondary button bits; the other bits stay.
pub fn remap_buttons(buttons: u8) -> (out: u8)
    ensures
        out == swapped_buttons(buttons),
        out & 0xfc == buttons & 0xfc,
        (out & 0x01 != 0) == (buttons & 0x02 != 0),
        (out & 0x02 != 0) == (buttons & 0x01 != 0),
{
    let out: u8 = (buttons & 0xfc) | ((buttons & 0x01) << 1) | ((buttons & 0x02) >> 1);
    assert(out & 0xfc == buttons & 0xfc && (out & 0x01 != 0) == (buttons & 0x02 != 0) && (out & 0x02
        != 0) == (buttons & 0x01 != 0)) by (bit_vector)
        requires
            out == (buttons & 0xfc) | ((buttons & 0x01) << 1) | ((buttons & 0x02) >> 1),
    ;
    out
}

/// Zeroes an axis delta whose magnitude is below the threshold.
pub fn apply_deadzone(delta: i16, threshold: u16) -> (out: i16)
    ensures
        out == deadzoned(delta as int, threshold as int),
{
    let size: i32 = if delta >= 0 {
        delta as i32
    } else {
        -(delta as i32)
    };
    if size < threshold as i32 {
        0
    } else {
        delta
    }
}

/// Whether a transform changed the report: buttons, `dx` or `dy` differ.
pub fn was_modified(before: &MouseReport, after: &MouseReport) -> (changed: bool)
    ensures
        changed == differs(*before, *after),
{
    before.buttons != after.buttons || before.dx != after.dx || before.dy != after.dy
}

impl InputModifier {
    pub fn new(config: Config) -> (m: InputModifier)
        ensures
            m.config == config,
    {
        InputModifier { config }
    }

    /// One axis through scaling and the deadzone.
    fn modify_axis(&self, delta: i16) -> (out: i16)
        ensures
            out == transformed_axis(delta, self.config),
    {
        let scaled: i16 = if self.config.sensitivity.is_one() {
            proof {
                lemma_unit_scale(self.config.sensitivity, delta as int);
            }
            delta
        } else {
            self.config.sensitivity.scale(delta)
        };
        apply_deadzone(scaled, self.config.deadzone_threshold)
    }

    /// Applies the configured rules to one report. Never fails: an axis that
    /// would leave the signed 16-bit range is clamped to it.
    pub fn modify_mouse_report(&self, report: MouseReport) -> (out: MouseReport)
        ensures
            out == transformed(report, self.config),
    {
        MouseReport {
            buttons: if self.config.remap_buttons {
                remap_buttons(report.buttons)
            } else {
                report.buttons
            },
            dx: self.modify_axis(report.dx),
            dy: self.modify_axis(report.dy),
            wheel: report.wheel,
        }
    }
}

/// Exchanging the two low button bits twice gives the mask back.
pub proof fn lemma_remap_twice(b: u8)
    ensures
        swapped_buttons(swapped_buttons(b)) == b,
{
    assert(swapped_buttons(swapped_buttons(b)) == b) by (bit_vector);
}

/// Exchanging the two low button bits leaves every other bit as it was.
pub proof fn lemma_remap_keeps_other_bits(b: u8)
    ensures
        swapped_buttons(b) & 0xfc == b & 0xfc,
{
    assert(swapped_buttons(b) & 0xfc == b & 0xfc) by (bit_vector);
}

/// Under a configuration that only remaps (unit sensitivity, no deadzone),
/// applying the transform twice gives the report back.
pub proof fn lemma_remap_only_twice(r: MouseReport, c: Config)
    requires
        c.sensitivity.is_unit(),
        c.deadzone_threshold == 0,
    ensures
        transformed(transformed(r, c), c) == r,
{
    lemma_unit_scale(c.sensitivity, r.dx as int);
    lemma_unit_scale(c.sensitivity, r.dy as int);
    lemma_remap_twice(r.buttons);
}

/// With unit sensitivity, no remapping and a zero deadzone threshold the
/// transform changes nothing.
pub proof fn lemma_identity_config(r: MouseReport, c: Config)
    requires
        c.sensitivity.is_unit(),
        !c.remap_buttons,
        c.deadzone_threshold == 0,
    ensures
        transformed(r, c) == r,
        !differs(r, transformed(r, c)),
{
    lemma_unit_scale(c.sensitivity, r.dx as int);
    lemma_unit_scale(c.sensitivity, r.dy as int);
}

/// A delta of two under a deadzone threshold of three becomes zero exactly
/// for the sensitivities below five quarters: from there on the scaled
/// delta reaches the threshold and passes.
pub proof fn lemma_deadzone_two_under_three(r: MouseReport, c: Config)
    requires
        r.dx == 2,
        c.deadzone_threshold == 3,
    ensures
        transformed(r, c).dx == 0 <==> 4 * c.sensitivity.numerator() < 5
            * c.sensitivity.denominator(),
{
    let n = c.sensitivity.numerator() as int;
    let d = c.sensitivity.denominator() as int;
    lemma_pow2_pos((-c.sensitivity.spec_exponent()) as nat);
    let x = 2 * (2 * n) + d;
    let q = x / (2 * d);
    lemma_fundamental_div_mod(x, 2 * d);
    assert(q < 3 <==> x < 6 * d) by (nonlinear_arith)
        requires
            x == (2 * d) * q + x % (2 * d),
            0 <= x % (2 * d) < 2 * d,
            d > 0,
    ;
}

} // verus!
