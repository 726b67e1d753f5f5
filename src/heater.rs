//! The heater's shadow state and the button presses that change it.
use vstd::prelude::*;

verus! {

/// Operating mode of the heater. The remote's MODE button cycles
/// `HeatLow -> HeatHigh -> Eco -> HeatLow`; there is no way back.
#[derive(Debug, Clone, Copy, PartialEq, Eq, Structural)]
pub enum HeaterMode {
    HeatLow,
    HeatHigh,
    Eco,
}

/// Position of a mode in the MODE button's cycle.
pub open spec fn mode_index(m: HeaterMode) -> int {
    match m {
        HeaterMode::HeatLow => 0,
        HeaterMode::HeatHigh => 1,
        HeaterMode::Eco => 2,
    }
}

/// The mode that follows `m` in the cycle.
pub open spec fn next_mode(m: HeaterMode) -> HeaterMode {
    match m {
        HeaterMode::HeatLow => HeaterMode::HeatHigh,
        HeaterMode::HeatHigh => HeaterMode::Eco,
        HeaterMode::Eco => HeaterMode::HeatLow,
    }
}

/// Number of MODE presses that lead from `from` to `to`.
pub open spec fn mode_steps(from: HeaterMode, to: HeaterMode) -> nat {
    ((mode_index(to) - mode_index(from) + 3) % 3) as nat
}

impl HeaterMode {
    /// The mode one MODE press leads to.
    pub fn next(&self) -> (r: HeaterMode)
        ensures
            r == next_mode(*self),
            mode_index(r) == (mode_index(*self) + 1) % 3,
    {
        match self {
            HeaterMode::HeatLow => HeaterMode::HeatHigh,
            HeaterMode::HeatHigh => HeaterMode::Eco,
            HeaterMode::Eco => HeaterMode::HeatLow,
        }
    }
}

/// One logical button of the heater's infrared remote.
#[derive(Debug, Clone, Copy, PartialEq, Eq, Structural)]
pub enum IrButton {
    Power,
    Mode,
    Warmer,
    Cooler,
}

/// How many physical presses a temperature change sends.
#[derive(Debug, Clone, Copy, PartialEq, Eq, Structural)]
pub enum PressPolicy {
    /// One press per degree.
    Exact,
    /// One press per degree plus one: the heater drops the first WARMER or
    /// COOLER press, so an extra press is sent that moves no degree.
    CompensateFirstPress,
}

/// Lowest temperature the heater accepts.
pub const MIN_TEMP: u8 = 5;

/// Highest temperature the heater accepts.
pub const MAX_TEMP: u8 = 35;

/// Temperature the heater falls back to on every power toggle.
pub const BASELINE_TEMP: u8 = 23;

/// `n` presses of button `b`.
pub open spec fn repeat(b: IrButton, n: nat) -> Seq<IrButton> {
    Seq::new(n, |i: int| b)
}

/// Distance between two temperatures, in degrees.
pub open spec fn temp_distance(a: u8, b: u8) -> nat {
    if a >= b { (a - b) as nat } else { (b - a) as nat }
}

/// Presses that move the temperature from `from` to `to` under `policy`.
pub open spec fn temp_presses(from: u8, to: u8, policy: PressPolicy) -> Seq<IrButton> {
    if from == to {
        Seq::empty()
    } else {
        let b = if to > from { IrButton::Warmer } else { IrButton::Cooler };
        match policy {
            PressPolicy::Exact => repeat(b, temp_distance(from, to)),
            PressPolicy::CompensateFirstPress => repeat(b, temp_distance(from, to) + 1),
        }
    }
}

/// What the controller believes about the heater. `temperature` and `mode`
/// mean something only while `is_on`.
#[derive(Debug, Clone, Copy, PartialEq, Eq, Structural)]
pub struct HeaterState {
    /// Degrees, from 5 (lowest) to 35 (highest).
    pub temperature: u8,
    pub mode: HeaterMode,
    pub is_on: bool,
}

/// The state the heater is in right after a power toggle.
pub open spec fn baseline(is_on: bool) -> HeaterState {
    HeaterState { temperature: BASELINE_TEMP, mode: HeaterMode::Eco, is_on }
}

/// One press of POWER that leads from state `s` and presses `p` to state
/// `t` and presses `q`, the heater ending up on when `on` holds and off
/// otherwise.
pub open spec fn power_step(
    s: HeaterState,
    on: bool,
    p: Seq<IrButton>,
    t: HeaterState,
    q: Seq<IrButton>,
) -> bool {
    &&& t == baseline(on)
    &&& q == p.push(IrButton::Power)
}

/// Power on, then off, then on again ends at the same baseline as the first
/// power on, whatever the state before, with one POWER press per step.
pub proof fn lemma_power_cycle_baseline(
    s0: HeaterState,
    p0: Seq<IrButton>,
    s1: HeaterState,
    p1: Seq<IrButton>,
    s2: HeaterState,
    p2: Seq<IrButton>,
    s3: HeaterState,
    p3: Seq<IrButton>,
)
    requires
        power_step(s0, true, p0, s1, p1),
        power_step(s1, false, p1, s2, p2),
        power_step(s2, true, p2, s3, p3),
    ensures
        s3 == s1,
        s3.is_on,
        s3.temperature == BASELINE_TEMP,
        s3.mode == HeaterMode::Eco,
        p3 == p0 + seq![IrButton::Power, IrButton::Power, IrButton::Power],
{
    assert(p3 =~= p0 + seq![IrButton::Power, IrButton::Power, IrButton::Power]);
}

impl Default for HeaterState {
    /// The heater off, at its baseline.
    fn default() -> (r: HeaterState)
        ensures
            r == baseline(false),
            r.wf(),
    {
        HeaterState { temperature: BASELINE_TEMP, mode: HeaterMode::Eco, is_on: false }
    }
}

impl HeaterState {
    /// The temperature lies in the range the heater accepts.
    pub open spec fn wf(&self) -> bool {
        MIN_TEMP <= self.temperature <= MAX_TEMP
    }

    /// Presses POWER and records the heater as on, at its baseline. POWER is a
    /// toggle: called while the heater is on, this turns the real heater off.
    pub fn power_on(&mut self, presses: &mut Vec<IrButton>)
        ensures
            power_step(*old(self), true, old(presses)@, *final(self), final(presses)@),
    {
        presses.push(IrButton::Power);
        self.temperature = BASELINE_TEMP;
        self.mode = HeaterMode::Eco;
        self.is_on = true;
    }

    /// Presses POWER and records the heater as off, at its baseline. POWER is
    /// a toggle, as for `power_on`.
    pub fn power_off(&mut self, presses: &mut Vec<IrButton>)
        ensures
            power_step(*old(self), false, old(presses)@, *final(self), final(presses)@),
    {
        presses.push(IrButton::Power);
        self.temperature = BASELINE_TEMP;
        self.mode = HeaterMode::Eco;
        self.is_on = false;
    }

    /// Presses MODE until the recorded mode is `desired_mode`: at most twice.
    pub fn change_mode(&mut self, desired_mode: HeaterMode, presses: &mut Vec<IrButton>)
        requires
            old(self).is_on,
        ensures
            *final(self) == (HeaterState { mode: desired_mode, ..*old(self) }),
            final(presses)@ == old(presses)@ + repeat(
                IrButton::Mode,
                mode_steps(old(self).mode, desired_mode),
            ),
            mode_steps(old(self).mode, desired_mode) <= 2,
    {
        let ghost start = presses@;
        let ghost total = mode_steps(self.mode, desired_mode);
        while self.mode != desired_mode
            invariant
                self.is_on == old(self).is_on,
                self.temperature == old(self).temperature,
                total == mode_steps(old(self).mode, desired_mode),
                mode_steps(self.mode, desired_mode) <= total,
                presses@ == start + repeat(
                    IrButton::Mode,
                    (total - mode_steps(self.mode, desired_mode)) as nat,
                ),
            decreases mode_steps(self.mode, desired_mode),
        {
            let ghost before = presses@;
            presses.push(IrButton::Mode);
            self.mode = self.mode.next();
            assert(presses@ =~= start + repeat(
                IrButton::Mode,
                (total - mode_steps(self.mode, desired_mode)) as nat,
            ));
        }
        assert(presses@ =~= start + repeat(IrButton::Mode, total));
    }

    /// Presses WARMER or COOLER until the recorded temperature is
    /// `desired_temp`, following `policy` for the number of presses. Returns
    /// `false`, with no press, when the temperature is already there: a benign
    /// skip, not an error.
    pub fn set_temp(&mut self, desired_temp: u8, policy: PressPolicy, presses: &mut Vec<IrButton>) -> (changed: bool)
        requires
            MIN_TEMP <= desired_temp <= MAX_TEMP,
            old(self).is_on,
        ensures
            *final(self) == (HeaterState { temperature: desired_temp, ..*old(self) }),
            final(presses)@ == old(presses)@ + temp_presses(old(self).temperature, desired_temp, policy),
            changed == (old(self).temperature != desired_temp),
    {
        if self.temperature == desired_temp {
            assert(presses@ =~= presses@ + temp_presses(self.temperature, desired_temp, policy));
            return false;
        }
        let (button, degrees) = if desired_temp > self.temperature {
            (IrButton::Warmer, desired_temp - self.temperature)
        } else {
            (IrButton::Cooler, self.temperature - desired_temp)
        };
        let count: u16 = match policy {
            PressPolicy::Exact => degrees as u16,
            PressPolicy::CompensateFirstPress => degrees as u16 + 1,
        };
        let ghost start = presses@;
        let mut i: u16 = 0;
        while i < count
            invariant
                i <= count,
                presses@ == start + repeat(button, i as nat),
            decreases count - i,
        {
            presses.push(button);
            i = i + 1;
            assert(presses@ =~= start + repeat(button, i as nat));
        }
        assert(repeat(button, count as nat) =~= temp_presses(self.temperature, desired_temp, policy));
        self.temperature = desired_temp;
        true
    }
}

} // verus!
