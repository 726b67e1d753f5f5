//! The control loop's decisions: when the morning routine fires on its own, and
//! what a key press does.
use vstd::prelude::*;

use crate::heater::{
    baseline, mode_steps, repeat, temp_presses, HeaterMode, HeaterState, IrButton, PressPolicy,
    MAX_TEMP,
};

verus! {

/// Hour from which the routine may fire on a weekday.
pub const START_HOUR_WEEKDAYS: u8 = 8;

/// Hour from which the routine may fire on Saturday and Sunday.
pub const START_HOUR_WEEKENDS: u8 = 9;

/// Hour from which the routine no longer fires.
pub const END_OF_START_HOUR: u8 = 13;

/// What the clock says, as far as the schedule reads it.
#[derive(Debug, Clone, Copy, PartialEq, Eq, Structural)]
pub struct ClockTime {
    /// 0 to 23.
    pub hour: u8,
    /// Day of the month, 1 to 31.
    pub day: u8,
    /// 1 (Monday) to 7 (Sunday).
    pub weekday: u8,
}

/// What the screen says the controller is doing.
#[derive(Debug, Clone, Copy, PartialEq, Eq, Structural)]
pub enum RunState {
    WaitingForDaytime,
    Changing,
    SetDaytimeHeat,
}

/// A key of the device.
#[derive(Debug, Clone, Copy, PartialEq, Eq, Structural)]
pub enum InputKey {
    Up,
    Down,
    Right,
    Left,
    /// The centre key, labelled OK.
    Center,
    Back,
}

/// How a key was pressed.
#[derive(Debug, Clone, Copy, PartialEq, Eq, Structural)]
pub enum PressKind {
    Press,
    Release,
    Short,
    Long,
    Repeat,
}

/// One input event.
#[derive(Debug, Clone, Copy, PartialEq, Eq, Structural)]
pub struct InputEvent {
    pub key: InputKey,
    pub kind: PressKind,
}

/// What an input event asks for.
#[derive(Debug, Clone, Copy, PartialEq, Eq, Structural)]
pub enum Command {
    /// Leave the control loop.
    Exit,
    /// Turn the heater off (OK, short or long, while on).
    PowerOff,
    /// Turn the heater on at its baseline (OK, short, while off).
    PowerOn,
    /// Run the morning routine now (OK, long, while off).
    RunDaytimeRoutine,
    /// Nothing to do.
    Unhandled,
}

/// Hour from which the routine may fire on `weekday`.
pub open spec fn start_hour_spec(weekday: u8) -> u8 {
    if weekday > 5 { START_HOUR_WEEKENDS } else { START_HOUR_WEEKDAYS }
}

/// The routine fires: the hour lies in the morning window and it has not
/// fired yet on this day of the month.
pub open spec fn daytime_due_spec(last_called_day: u8, now: ClockTime) -> bool {
    &&& start_hour_spec(now.weekday) <= now.hour
    &&& now.hour < END_OF_START_HOUR
    &&& last_called_day < now.day
}

/// The command an event stands for, given whether the heater is on.
pub open spec fn command_of(event: InputEvent, heater_is_on: bool) -> Command {
    match event.key {
        InputKey::Back => Command::Exit,
        InputKey::Center => {
            if heater_is_on && (event.kind == PressKind::Short || event.kind == PressKind::Long) {
                Command::PowerOff
            } else if event.kind == PressKind::Short {
                Command::PowerOn
            } else if event.kind == PressKind::Long {
                Command::RunDaytimeRoutine
            } else {
                Command::Unhandled
            }
        },
        _ => Command::Unhandled,
    }
}

/// The heater after the morning routine: on, heating high, at 35 degrees.
pub open spec fn daytime_heater() -> HeaterState {
    HeaterState { temperature: MAX_TEMP, mode: HeaterMode::HeatHigh, is_on: true }
}

/// Presses of the morning routine: POWER, MODE from the baseline mode to
/// `HeatHigh`, then the temperature from the baseline to 35.
pub open spec fn daytime_presses(policy: PressPolicy) -> Seq<IrButton> {
    seq![IrButton::Power] + repeat(IrButton::Mode, mode_steps(baseline(true).mode, HeaterMode::HeatHigh))
        + temp_presses(baseline(true).temperature, MAX_TEMP, policy)
}

/// Hour from which the routine may fire on `weekday`.
pub fn start_hour(weekday: u8) -> (r: u8)
    ensures
        r == start_hour_spec(weekday),
{
    if weekday > 5 {
        START_HOUR_WEEKENDS
    } else {
        START_HOUR_WEEKDAYS
    }
}

/// Whether the routine fires at `now`, when it last fired on `last_called_day`.
pub fn daytime_due(last_called_day: u8, now: ClockTime) -> (r: bool)
    ensures
        r == daytime_due_spec(last_called_day, now),
{
    now.hour < END_OF_START_HOUR && now.hour >= start_hour(now.weekday) && last_called_day < now.day
}

/// The command an event stands for. BACK always exits; OK turns a running
/// heater off whether pressed short or long.
pub fn dispatch(event: InputEvent, heater_is_on: bool) -> (r: Command)
    ensures
        r == command_of(event, heater_is_on),
        event.key == InputKey::Back ==> r == Command::Exit,
        heater_is_on && event.key == InputKey::Center && event.kind == PressKind::Long
            ==> r == Command::PowerOff,
{
    match event.key {
        InputKey::Back => Command::Exit,
        InputKey::Center => {
            if heater_is_on && (event.kind == PressKind::Short || event.kind == PressKind::Long) {
                Command::PowerOff
            } else {
                match event.kind {
                    PressKind::Short => Command::PowerOn,
                    PressKind::Long => Command::RunDaytimeRoutine,
                    _ => Command::Unhandled,
                }
            }
        },
        _ => Command::Unhandled,
    }
}

/// Everything the control loop keeps between ticks.
#[derive(Debug, Clone, Copy, PartialEq, Eq, Structural)]
pub struct AppState {
    /// Day of the month on which the morning routine last ran; 0 before it ever did.
    pub last_called_day: u8,
    pub heater_state: HeaterState,
    pub run_state: RunState,
    /// How temperature changes are pressed on this heater.
    pub press_policy: PressPolicy,
}

/// `s` after the morning routine ran on `day`.
pub open spec fn after_daytime(s: AppState, day: u8) -> AppState {
    AppState { heater_state: daytime_heater(), last_called_day: day, ..s }
}

/// Once the routine has fired on its own at `now`, it does not fire again at
/// any time of the same day of the month.
pub proof fn lemma_daytime_fires_once_per_day(s: AppState, now: ClockTime, later: ClockTime)
    requires
        daytime_due_spec(s.last_called_day, now),
        later.day == now.day,
    ensures
        !daytime_due_spec(after_daytime(s, now.day).last_called_day, later),
{
}

/// How OK pressed with `kind` on `day` leads from state `s` and presses `p`
/// to state `t` and presses `q`.
pub open spec fn handled_ok(
    s: AppState,
    t: AppState,
    kind: PressKind,
    day: u8,
    p: Seq<IrButton>,
    q: Seq<IrButton>,
) -> bool {
    match command_of(InputEvent { key: InputKey::Center, kind }, s.heater_state.is_on) {
        Command::PowerOff => {
            &&& t == (AppState {
                heater_state: baseline(false),
                run_state: RunState::WaitingForDaytime,
                ..s
            })
            &&& q == p.push(IrButton::Power)
        },
        Command::PowerOn => {
            &&& t == (AppState {
                heater_state: baseline(true),
                run_state: RunState::WaitingForDaytime,
                ..s
            })
            &&& q == p.push(IrButton::Power)
        },
        Command::RunDaytimeRoutine => {
            &&& t == (AppState { run_state: RunState::SetDaytimeHeat, ..after_daytime(s, day) })
            &&& q == p + daytime_presses(s.press_policy)
        },
        _ => {
            &&& t == (AppState { run_state: RunState::WaitingForDaytime, ..s })
            &&& q == p
        },
    }
}

impl AppState {
    /// Heater off at its baseline, routine never run, waiting for daytime.
    pub fn new(press_policy: PressPolicy) -> (r: AppState)
        ensures
            r.last_called_day == 0,
            r.heater_state == baseline(false),
            r.run_state == RunState::WaitingForDaytime,
            r.press_policy == press_policy,
            r.heater_state.wf(),
    {
        AppState {
            last_called_day: 0,
            heater_state: HeaterState::default(),
            run_state: RunState::WaitingForDaytime,
            press_policy,
        }
    }

    /// The morning routine: power on, heat high, 35 degrees; records `day` as
    /// the day it last ran.
    pub fn start_of_day_power_heater(&mut self, day: u8, presses: &mut Vec<IrButton>)
        ensures
            *final(self) == after_daytime(*old(self), day),
            final(presses)@ == old(presses)@ + daytime_presses(old(self).press_policy),
    {
        let ghost start = presses@;
        self.heater_state.power_on(presses);
        self.heater_state.change_mode(HeaterMode::HeatHigh, presses);
        self.heater_state.set_temp(MAX_TEMP, self.press_policy, presses);
        assert(presses@ =~= start + daytime_presses(self.press_policy));
        self.last_called_day = day;
    }

    /// The scheduled part of a tick: runs the morning routine when it is due at
    /// `now`, and says whether it did. The display state is left as it is.
    pub fn check_daytime(&mut self, now: ClockTime, presses: &mut Vec<IrButton>) -> (fired: bool)
        ensures
            fired == daytime_due_spec(old(self).last_called_day, now),
            fired ==> *final(self) == after_daytime(*old(self), now.day),
            fired ==> final(presses)@ == old(presses)@ + daytime_presses(old(self).press_policy),
            !fired ==> *final(self) == *old(self) && final(presses)@ == old(presses)@,
    {
        if daytime_due(self.last_called_day, now) {
            self.start_of_day_power_heater(now.day, presses);
            true
        } else {
            false
        }
    }

    /// OK pressed with `kind`: turns a running heater off, else turns it on
    /// (short) or runs the morning routine (long), recording `day` as its day.
    pub fn handle_ok_press(&mut self, kind: PressKind, day: u8, presses: &mut Vec<IrButton>)
        ensures
            handled_ok(*old(self), *final(self), kind, day, old(presses)@, final(presses)@),
    {
        if (kind == PressKind::Long || kind == PressKind::Short) && self.heater_state.is_on {
            self.heater_state.power_off(presses);
            self.run_state = RunState::WaitingForDaytime;
            return;
        }
        match kind {
            PressKind::Short => {
                self.heater_state.power_on(presses);
            },
            PressKind::Long => {
                self.start_of_day_power_heater(day, presses);
                self.run_state = RunState::SetDaytimeHeat;
                return;
            },
            _ => {},
        }
        self.run_state = RunState::WaitingForDaytime;
    }

    /// Handles one input event arriving on `day`. Returns `false` when the
    /// control loop is to end (BACK), `true` otherwise. Any key marks the
    /// display as changing; OK then goes on as `handle_ok_press` says.
    pub fn handle_key_presses(&mut self, event: InputEvent, day: u8, presses: &mut Vec<IrButton>) -> (running: bool)
        ensures
            running == (command_of(event, old(self).heater_state.is_on) != Command::Exit),
            event.key == InputKey::Center ==> handled_ok(
                (AppState { run_state: RunState::Changing, ..*old(self) }),
                *final(self),
                event.kind,
                day,
                old(presses)@,
                final(presses)@,
            ),
            event.key != InputKey::Center ==> {
                &&& *final(self) == (AppState { run_state: RunState::Changing, ..*old(self) })
                &&& final(presses)@ == old(presses)@
            },
    {
        self.run_state = RunState::Changing;
        match event.key {
            InputKey::Back => {
                return false;
            },
            InputKey::Center => self.handle_ok_press(event.kind, day, presses),
            _ => {},
        }
        true
    }
}

} // verus!
