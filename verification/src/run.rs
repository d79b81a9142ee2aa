//! The poll driver's part of the core: what a tick writes to the
//! time-series store, and how verbose the process is asked to be.

use vstd::prelude::*;
use crate::error::EaseeError;
use crate::fetch::{outcome_view, ChargerState, ChargerStateView};
use crate::text::same_text;

verus! {

/// One value of one variable at one instant, as it is written to the
/// time-series store. The value is a double, held as its IEEE 754 bits.
#[derive(Debug)]
pub struct Variable {
    /// The instant of the value.
    pub time: i64,
    /// The value.
    pub value: u64,
    /// The name of the variable.
    pub variable: String,
}

/// A [`Variable`] with its name as a sequence of characters.
pub struct VariableView {
    pub time: i64,
    pub value: u64,
    pub variable: Seq<char>,
}

impl View for Variable {
    type V = VariableView;

    open spec fn view(&self) -> VariableView {
        VariableView { time: self.time, value: self.value, variable: self.variable@ }
    }
}

impl DeepView for Variable {
    type V = VariableView;

    open spec fn deep_view(&self) -> VariableView {
        self@
    }
}

/// The `which`-th of the three points of a charger's state: the
/// measurement, which is the charger's id, and the variable. The points are
/// `power`, `energy_per_hour` and `session`, in this order.
pub open spec fn point(state: ChargerStateView, which: int, time: i64) -> (Seq<char>, VariableView) {
    if which == 0 {
        (state.id, VariableView { time, value: state.power, variable: "power"@ })
    } else if which == 1 {
        (
            state.id,
            VariableView { time, value: state.energy_per_hour, variable: "energy_per_hour"@ },
        )
    } else {
        (state.id, VariableView { time, value: state.session, variable: "session"@ })
    }
}

/// The points of a list of states: three for each state, state by state.
pub open spec fn points(states: Seq<ChargerStateView>, time: i64) -> Seq<
    (Seq<char>, VariableView),
> {
    Seq::new(3 * states.len(), |i: int| point(states[i / 3], i % 3, time))
}

/// What a tick writes, given what its fetch came to: the points of the
/// states that were fetched, and nothing after a failure.
pub open spec fn tick_points(outcome: Result<Seq<ChargerStateView>, EaseeError>, time: i64) -> Seq<
    (Seq<char>, VariableView),
> {
    match outcome {
        Ok(states) => points(states, time),
        Err(_) => Seq::empty(),
    }
}

/// Makes one point of a charger's state.
fn make_point(name: &str, value: u64, measurement: &str, time: i64) -> (written: (
    String,
    Variable,
))
    ensures
        written.deep_view() == (
            measurement@,
            VariableView { time, value, variable: name@ },
        ),
{
    (measurement.to_owned(), Variable { time, value, variable: name.to_owned() })
}

/// One tick of the poll driver: the points to write at `time`, given what
/// the tick's fetch came to. Each point comes with the measurement it
/// belongs to, the id of its charger. A failed fetch writes nothing; the
/// next tick goes ahead as if nothing had happened.
pub fn tick(outcome: &Result<Vec<ChargerState>, EaseeError>, time: i64) -> (written: Vec<
    (String, Variable),
>)
    ensures
        written.deep_view() == tick_points(outcome_view(*outcome), time),
{
    let mut written: Vec<(String, Variable)> = Vec::new();
    match outcome {
        Ok(states) => {
            let mut at: usize = 0;
            assert(written.deep_view() =~= points(states.deep_view().take(0), time));
            while at < states.len()
                invariant
                    at <= states.len(),
                    written.len() == 3 * at,
                    written.deep_view() == points(states.deep_view().take(at as int), time),
                decreases states.len() - at,
            {
                let charger = &states[at];
                let ghost before = written.deep_view();
                written.push(make_point("power", charger.power, charger.id.as_str(), time));
                written.push(
                    make_point(
                        "energy_per_hour",
                        charger.energy_per_hour,
                        charger.id.as_str(),
                        time,
                    ),
                );
                written.push(make_point("session", charger.session, charger.id.as_str(), time));
                proof {
                    let seen = states.deep_view().take(at + 1);
                    let earlier = states.deep_view().take(at as int);
                    let now = written.deep_view();
                    assert forall|i: int| 0 <= i < 3 * at + 3 implies now[i] == point(
                        seen[i / 3],
                        i % 3,
                        time,
                    ) by {
                        if i < 3 * at {
                            assert(now[i] == before[i]);
                            assert(earlier[i / 3] == seen[i / 3]);
                        } else {
                            assert(seen[i / 3] == charger@);
                        }
                    }
                    assert(now =~= points(seen, time));
                }
                at += 1;
            }
            assert(states.deep_view().take(at as int) =~= states.deep_view());
        },
        Err(_) => {
            assert(written.deep_view() =~= Seq::empty());
        },
    }
    written
}

/// How much of what happens the process writes to its log.
#[derive(Debug, Clone, Copy, PartialEq, Eq, Structural)]
pub enum LogLevel {
    Trace,
    Debug,
    Info,
    Warn,
    Error,
}

/// The level that a configured name stands for: `trace`, `debug`, `info`,
/// `warn` and `error` stand for themselves, and everything else, like no
/// name at all, for `Info`.
pub open spec fn named_level(name: Option<Seq<char>>) -> LogLevel {
    match name {
        Some(name) => if name == "trace"@ {
            LogLevel::Trace
        } else if name == "debug"@ {
            LogLevel::Debug
        } else if name == "info"@ {
            LogLevel::Info
        } else if name == "warn"@ {
            LogLevel::Warn
        } else if name == "error"@ {
            LogLevel::Error
        } else {
            LogLevel::Info
        },
        None => LogLevel::Info,
    }
}

/// Reads the log level from its configured name, if one is configured.
pub fn log_level(name: Option<&str>) -> (level: LogLevel)
    ensures
        level == named_level(name.deep_view()),
{
    match name {
        Some(name) => {
            if same_text(name, "trace") {
                LogLevel::Trace
            } else if same_text(name, "debug") {
                LogLevel::Debug
            } else if same_text(name, "info") {
                LogLevel::Info
            } else if same_text(name, "warn") {
                LogLevel::Warn
            } else if same_text(name, "error") {
                LogLevel::Error
            } else {
                LogLevel::Info
            }
        },
        None => LogLevel::Info,
    }
}

} // verus!
