use vstd::prelude::*;

use std::collections::VecDeque;

use crate::protocol::{KeyboardKey, MouseButton, ReportMode};
use crate::report::RawReport;

verus! {

/// The poll rates offered to a user.
#[derive(Debug, Clone, Copy, PartialEq, Eq, Structural)]
pub enum PollRate {
    _500,
    _1000,
    _2000,
    _4000,
    _8000,
    _16000,
    _32000,
}

/// The rate in hertz that a poll rate stands for.
pub open spec fn poll_rate_hz(p: PollRate) -> u16 {
    match p {
        PollRate::_500 => 500,
        PollRate::_1000 => 1000,
        PollRate::_2000 => 2000,
        PollRate::_4000 => 4000,
        PollRate::_8000 => 8000,
        PollRate::_16000 => 16000,
        PollRate::_32000 => 32000,
    }
}

/// The poll rate that a rate reported by the device matches: the four lower
/// rates exactly, the three higher ones within a tolerance, since the device
/// may not reach them exactly.
pub open spec fn poll_rate_matching(v: u16) -> Option<PollRate> {
    if v == 500 {
        Some(PollRate::_500)
    } else if v == 1000 {
        Some(PollRate::_1000)
    } else if v == 2000 {
        Some(PollRate::_2000)
    } else if v == 4000 {
        Some(PollRate::_4000)
    } else if 7750 < v < 8250 {
        Some(PollRate::_8000)
    } else if 15500 < v < 16500 {
        Some(PollRate::_16000)
    } else if 31000 < v < 33000 {
        Some(PollRate::_32000)
    } else {
        None
    }
}

/// The poll rate nearest to a rate in hertz, by fixed cut points.
pub open spec fn poll_rate_nearest(v: u16) -> PollRate {
    if v > 24000 {
        PollRate::_32000
    } else if v > 12000 {
        PollRate::_16000
    } else if v > 6000 {
        PollRate::_8000
    } else if v > 3000 {
        PollRate::_4000
    } else if v > 1500 {
        PollRate::_2000
    } else if v > 750 {
        PollRate::_1000
    } else {
        PollRate::_500
    }
}

impl PollRate {
    /// The poll rate that a rate reported by the device matches, if any.
    pub fn try_from(value: u16) -> (r: Result<PollRate, ()>)
        ensures
            match poll_rate_matching(value) {
                Some(p) => r == Ok::<PollRate, ()>(p),
                None => r == Err::<PollRate, ()>(()),
            },
    {
        if value == 500 {
            Ok(PollRate::_500)
        } else if value == 1000 {
            Ok(PollRate::_1000)
        } else if value == 2000 {
            Ok(PollRate::_2000)
        } else if value == 4000 {
            Ok(PollRate::_4000)
        } else if value > 7750 && value < 8250 {
            Ok(PollRate::_8000)
        } else if value > 15500 && value < 16500 {
            Ok(PollRate::_16000)
        } else if value > 31000 && value < 33000 {
            Ok(PollRate::_32000)
        } else {
            Err(())
        }
    }
}

impl From<PollRate> for u16 {
    /// The rate in hertz.
    fn from(val: PollRate) -> (r: u16)
        ensures
            r == poll_rate_hz(val),
    {
        match val {
            PollRate::_500 => 500,
            PollRate::_1000 => 1000,
            PollRate::_2000 => 2000,
            PollRate::_4000 => 4000,
            PollRate::_8000 => 8000,
            PollRate::_16000 => 16000,
            PollRate::_32000 => 32000,
        }
    }
}

impl vstd::std_specs::convert::FromSpecImpl<PollRate> for u16 {
    open spec fn obeys_from_spec() -> bool {
        true
    }

    open spec fn from_spec(v: PollRate) -> u16 {
        poll_rate_hz(v)
    }
}

impl From<u16> for PollRate {
    /// The poll rate nearest to a rate in hertz.
    fn from(value: u16) -> (r: PollRate)
        ensures
            r == poll_rate_nearest(value),
    {
        if value > 24000 {
            PollRate::_32000
        } else if value > 12000 {
            PollRate::_16000
        } else if value > 6000 {
            PollRate::_8000
        } else if value > 3000 {
            PollRate::_4000
        } else if value > 1500 {
            PollRate::_2000
        } else if value > 750 {
            PollRate::_1000
        } else {
            PollRate::_500
        }
    }
}

impl vstd::std_specs::convert::FromSpecImpl<u16> for PollRate {
    open spec fn obeys_from_spec() -> bool {
        true
    }

    open spec fn from_spec(v: u16) -> PollRate {
        poll_rate_nearest(v)
    }
}

/// Every offered poll rate is matched by its own rate and is the nearest to
/// it.
pub proof fn lemma_poll_rate_hz_round_trip(p: PollRate)
    ensures
        poll_rate_matching(poll_rate_hz(p)) == Some(p),
        poll_rate_nearest(poll_rate_hz(p)) == p,
{
}

/// How many times per second a user interface should poll the session: a
/// forced rate if one is set, else one two-hundredth of the poll rate while
/// raw samples stream and 10 for summaries only, but never below 10.
pub open spec fn tick_hertz_spec(mode: ReportMode, rate: PollRate, forced: Option<u16>) -> u16 {
    match forced {
        Some(f) => f,
        None => {
            let wanted = match mode {
                ReportMode::Raw | ReportMode::Combined => poll_rate_hz(rate) / 200,
                ReportMode::Summary => 10,
            };
            if wanted < 10 {
                10
            } else {
                wanted
            }
        },
    }
}

/// How many times per second to poll the session.
pub fn tick_hertz(mode: ReportMode, rate: PollRate, forced: Option<u16>) -> (r: u16)
    ensures
        r == tick_hertz_spec(mode, rate, forced),
{
    match forced {
        Some(f) => f,
        None => {
            let wanted = match mode {
                ReportMode::Raw | ReportMode::Combined => u16::from(rate) / 200,
                ReportMode::Summary => 10,
            };
            if wanted < 10 {
                10
            } else {
                wanted
            }
        },
    }
}

/// How many raw samples a chart keeps: four seconds at the poll rate.
pub open spec fn raw_window_len(rate: PollRate) -> nat {
    poll_rate_hz(rate) as nat * 4
}

/// Adds a raw sample to a chart's window of the latest four seconds: the
/// oldest sample leaves a full window, and a window that has grown past its
/// length (after the poll rate was lowered) starts over.
pub fn push_raw_sample(window: &mut VecDeque<RawReport>, rate: PollRate, data: RawReport)
    ensures
        old(window)@.len() < raw_window_len(rate) ==> final(window)@ == old(window)@.push(data),
        old(window)@.len() == raw_window_len(rate) ==> final(window)@ == old(window)@.drop_first().push(
            data,
        ),
        old(window)@.len() > raw_window_len(rate) ==> final(window)@ == seq![data],
{
    let sample_count = u16::from(rate) as usize * 4;
    if window.len() == sample_count {
        window.pop_front();
    } else if window.len() > sample_count {
        window.clear();
    }
    window.push_back(data);
}

/// Whether a raw sample starts a trigger: it is active where the previous
/// sample, if there is one, was not.
pub fn is_trigger_start(previous: Option<&RawReport>, sample: &RawReport) -> (r: bool)
    ensures
        r == (match previous {
            Some(p) => !p.trigger && sample.trigger,
            None => false,
        }),
{
    match previous {
        Some(p) => !p.trigger && sample.trigger,
        None => false,
    }
}

/// Which family of inputs the device's action uses.
#[derive(Debug, Clone, Copy, PartialEq, Eq, Structural)]
pub enum ActionType {
    Mouse,
    Keyboard,
}

impl ActionType {
    /// The name of this family, as shown to a user.
    pub fn label(self) -> (r: &'static str)
        ensures
            r@ == (match self {
                ActionType::Mouse => "Mouse"@,
                ActionType::Keyboard => "Keyboard"@,
            }),
    {
        match self {
            ActionType::Mouse => "Mouse",
            ActionType::Keyboard => "Keyboard",
        }
    }
}

/// The key chosen for each action family, if any.
#[derive(Debug, Clone, Copy, PartialEq, Eq, Structural)]
pub struct ActionKey {
    pub mouse: Option<MouseButton>,
    pub keyboard: Option<KeyboardKey>,
}

impl Default for ActionKey {
    /// No key chosen for either family.
    fn default() -> (r: ActionKey)
        ensures
            r.mouse is None,
            r.keyboard is None,
    {
        ActionKey { mouse: None, keyboard: None }
    }
}

/// What a user interface around a session reacts to.
#[derive(Debug, Clone, Copy, PartialEq, Eq, Structural)]
pub enum Message {
    Tick,
    RecordStart,
    RecordStop,
    Clear,
    GraphToggle,
    ManualTrigger,
    PollRateChanged(PollRate),
    ReportModeChanged(ReportMode),
    ActionModeChanged(ActionType),
    ActionKeyChanged(u8),
    ThresholdChanged(i16),
    ThresholdReleased,
}

} // verus!
