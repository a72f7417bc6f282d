//! From effects and sequences to the commands and waits that they consist
//! of, and the cursor that runs them in order.

use crate::command::{Apply, Command, ZoneEffect};
use crate::effect::{lookup, ColourSpec, Effect, Operation, Sequence};
use crate::error::Error;
use crate::light::Light;
use vstd::prelude::*;

verus! {

/// How long to wait.
#[derive(Clone, Copy, Debug, PartialEq, Eq)]
pub enum Pause {
    Millis(u64),
    Nanos(u64),
}

/// One thing to do for the light.
#[derive(Clone, Copy, Debug, PartialEq, Eq)]
pub enum Step {
    /// Send the command and wait for its acknowledgement.
    Send(Command),
    /// Wait.
    Sleep(Pause),
}

/// The colour of a dark zone.
pub open spec fn spec_off() -> ColourSpec {
    ColourSpec(0, 0, 0, 4500)
}

/// The colour of a dark zone.
#[verifier::when_used_as_spec(spec_off)]
pub fn off() -> (c: ColourSpec)
    ensures
        c == spec_off(),
{
    ColourSpec(0, 0, 0, 4500)
}

/// How long a rotation without a given duration lasts, in nanoseconds.
pub const UNBOUNDED_NS: u64 = u64::MAX / 2;

/// The first zone of segment `i`.  Zone indices have eight bits: positions
/// past 255 wrap around.
pub open spec fn zone_start(i: int, scale_factor: u8) -> u8 {
    ((i * scale_factor) % 256) as u8
}

/// The zone that ends segment `i`: `scale_factor` zones after its start,
/// again within eight bits.
pub open spec fn zone_end(i: int, scale_factor: u8) -> u8 {
    ((zone_start(i, scale_factor) + scale_factor) % 256) as u8
}

/// The command that colours segment `i`, kept back until the commit.
pub open spec fn zone_command(
    colours: Seq<Option<ColourSpec>>,
    scale_factor: u8,
    transition_ms: u32,
    i: int,
) -> Command {
    Command::SetColorZones {
        start_index: zone_start(i, scale_factor),
        end_index: zone_end(i, scale_factor),
        color: match colours[i] {
            Some(colour) => colour,
            None => off(),
        },
        duration: transition_ms,
        apply: Apply::NoApply,
    }
}

/// The command that applies the zone colours kept back, and changes none.
pub open spec fn commit_command(transition_ms: u32) -> Command {
    Command::SetColorZones {
        start_index: 0,
        end_index: 0,
        color: off(),
        duration: transition_ms,
        apply: Apply::ApplyOnly,
    }
}

/// The command that starts a rotation.
pub open spec fn rotate_command(period: u32, duration: u64) -> Command {
    Command::SetMultiZoneEffect {
        instance_id: 1,
        typ: ZoneEffect::Move,
        reserved: 0,
        speed: period,
        duration,
        reserved7: 0,
        reserved8: 0,
        parameters: [0, 1, 0, 0, 0, 0, 0, 0],
    }
}

/// What applying an effect consists of: for a single colour one command;
/// for zone colours one command per segment and then the commit; in both
/// cases followed by a wait for the transition to end.
pub open spec fn effect_steps(effect: Effect, transition_ms: u32) -> Seq<Step> {
    match effect {
        Effect::SolidColour(colour) => seq![
            Step::Send(Command::LightSetColor { reserved: 0, color: colour, duration: transition_ms }),
            Step::Sleep(Pause::Millis(transition_ms as u64)),
        ],
        Effect::MultiColour { colours, scale_factor } => Seq::new(
            colours@.len(),
            |i: int| Step::Send(zone_command(colours@, scale_factor, transition_ms, i)),
        ).push(Step::Send(commit_command(transition_ms))).push(
            Step::Sleep(Pause::Millis(transition_ms as u64)),
        ),
    }
}

/// How long a rotation lasts.
pub open spec fn rotation_ns(duration_ns: Option<u64>) -> u64 {
    match duration_ns {
        Some(ns) => ns,
        None => UNBOUNDED_NS,
    }
}

/// What one operation consists of.  A transition to a name that the
/// catalogue lacks consists of nothing.
pub open spec fn operation_steps(effects: Seq<(String, Effect)>, op: Operation) -> Seq<Step> {
    match op {
        Operation::Transition { to, transition_ms } => match lookup(effects, to@) {
            Some(effect) => effect_steps(effect, transition_ms),
            None => Seq::empty(),
        },
        Operation::DelayMs(ms) => seq![Step::Sleep(Pause::Millis(ms))],
        Operation::Rotate { period, duration_ns } => seq![
            Step::Send(rotate_command(period, rotation_ns(duration_ns))),
            Step::Sleep(Pause::Nanos(rotation_ns(duration_ns))),
        ],
    }
}

/// What the first `n` operations consist of, one after the other.
pub open spec fn sequence_steps(effects: Seq<(String, Effect)>, ops: Seq<Operation>, n: int) -> Seq<
    Step,
>
    decreases n,
{
    if n <= 0 {
        Seq::empty()
    } else {
        sequence_steps(effects, ops, n - 1) + operation_steps(effects, ops[n - 1])
    }
}

fn append(steps: &mut Vec<Step>, more: &Vec<Step>)
    ensures
        final(steps)@ == old(steps)@ + more@,
{
    let mut i: usize = 0;
    while i < more.len()
        invariant
            i <= more@.len(),
            steps@ == old(steps)@ + more@.subrange(0, i as int),
        decreases more@.len() - i,
    {
        steps.push(more[i]);
        assert(more@.subrange(0, i + 1) == more@.subrange(0, i as int).push(more@[i as int]));
        i = i + 1;
    }
    assert(more@.subrange(0, more@.len() as int) == more@);
}

impl<T> Light<T> {
    /// What applying `effect` over `transition_ms` milliseconds consists of.
    pub fn apply(&self, effect: &Effect, transition_ms: u32) -> (steps: Vec<Step>)
        ensures
            steps@ == effect_steps(*effect, transition_ms),
    {
        let mut steps: Vec<Step> = Vec::new();
        match effect {
            Effect::SolidColour(colour) => {
                steps.push(
                    Step::Send(
                        Command::LightSetColor {
                            reserved: 0,
                            color: *colour,
                            duration: transition_ms,
                        },
                    ),
                );
            },
            Effect::MultiColour { colours, scale_factor } => {
                let scale: u8 = *scale_factor;
                let mut i: usize = 0;
                while i < colours.len()
                    invariant
                        i <= colours@.len(),
                        steps@ == Seq::new(
                            i as nat,
                            |k: int| Step::Send(zone_command(colours@, scale, transition_ms, k)),
                        ),
                    decreases colours@.len() - i,
                {
                    assert((i % 256) * scale <= 255 * 255) by (nonlinear_arith)
                        requires
                            0 <= i % 256 <= 255,
                            0 <= scale <= 255,
                    ;
                    let low: usize = (i % 256) * (scale as usize);
                    let start: u8 = (low % 256) as u8;
                    let end: u8 = ((start as usize + scale as usize) % 256) as u8;
                    assert(start == zone_start(i as int, scale)) by {
                        vstd::arithmetic::div_mod::lemma_mul_mod_noop_left(
                            i as int,
                            scale as int,
                            256,
                        );
                    }
                    let color = match colours[i] {
                        Some(colour) => colour,
                        None => off(),
                    };
                    steps.push(
                        Step::Send(
                            Command::SetColorZones {
                                start_index: start,
                                end_index: end,
                                color,
                                duration: transition_ms,
                                apply: Apply::NoApply,
                            },
                        ),
                    );
                    i = i + 1;
                    assert(steps@ =~= Seq::new(
                        i as nat,
                        |k: int| Step::Send(zone_command(colours@, scale, transition_ms, k)),
                    ));
                }
                steps.push(
                    Step::Send(
                        Command::SetColorZones {
                            start_index: 0,
                            end_index: 0,
                            color: off(),
                            duration: transition_ms,
                            apply: Apply::ApplyOnly,
                        },
                    ),
                );
            },
        }
        steps.push(Step::Sleep(Pause::Millis(transition_ms as u64)));
        assert(steps@ =~= effect_steps(*effect, transition_ms));
        steps
    }

    /// What running `sequence` consists of: its operations in order, each
    /// with all its commands and waits before the next begins.
    pub fn run_sequence(&self, sequence: &Sequence) -> (steps: Vec<Step>)
        requires
            sequence.well_formed(),
        ensures
            steps@ == sequence_steps(sequence.effects@, sequence.ops@, sequence.ops@.len() as int),
    {
        let mut steps: Vec<Step> = Vec::new();
        let mut n: usize = 0;
        while n < sequence.ops.len()
            invariant
                n <= sequence.ops@.len(),
                sequence.well_formed(),
                steps@ == sequence_steps(sequence.effects@, sequence.ops@, n as int),
            decreases sequence.ops@.len() - n,
        {
            match &sequence.ops[n] {
                Operation::Transition { to, transition_ms } => {
                    match sequence.effect(to) {
                        Some(effect) => {
                            let more = self.apply(effect, *transition_ms);
                            append(&mut steps, &more);
                        },
                        // A well-formed sequence has no such transition.
                        None => {},
                    }
                },
                Operation::DelayMs(ms) => {
                    steps.push(Step::Sleep(Pause::Millis(*ms)));
                },
                Operation::Rotate { period, duration_ns } => {
                    let duration: u64 = match duration_ns {
                        Some(ns) => *ns,
                        None => UNBOUNDED_NS,
                    };
                    steps.push(
                        Step::Send(
                            Command::SetMultiZoneEffect {
                                instance_id: 1,
                                typ: ZoneEffect::Move,
                                reserved: 0,
                                speed: *period,
                                duration,
                                reserved7: 0,
                                reserved8: 0,
                                parameters: [0, 1, 0, 0, 0, 0, 0, 0],
                            },
                        ),
                    );
                    steps.push(Step::Sleep(Pause::Nanos(duration)));
                },
            }
            n = n + 1;
            assert(steps@ =~= sequence_steps(sequence.effects@, sequence.ops@, n as int));
        }
        steps
    }
}

/// A list of steps, and how far it has been run.
///
/// The caller performs one step at a time and reports how it went; the
/// script answers with the next step.  The first report, before any step,
/// is `Ok`.
#[derive(Debug)]
pub struct Script {
    pub steps: Vec<Step>,
    /// How many steps have been handed out; the number of steps once the
    /// script has ended.
    pub position: usize,
}

/// What the script asks for next.
#[derive(Debug)]
pub enum Progress {
    /// Perform this step and report back.
    Next(Step),
    /// Every step has been performed.
    Complete,
    /// The step reported has failed: the run ends here with its error.
    Abort(Error),
}

/// The step that is handed out at `position` after a report, if any: none
/// after a failure, none at the end.
pub open spec fn issued(len: nat, position: nat, ok: bool) -> Option<nat> {
    if ok && position < len {
        Some(position)
    } else {
        None
    }
}

/// The position after a report: a failure moves it to the end.
pub open spec fn position_after(len: nat, position: nat, ok: bool) -> nat {
    if !ok {
        len
    } else if position < len {
        position + 1
    } else {
        position
    }
}

/// The position after a series of reports.
pub open spec fn position_after_all(len: nat, position: nat, reports: Seq<bool>) -> nat
    decreases reports.len(),
{
    if reports.len() == 0 {
        position
    } else {
        position_after(len, position_after_all(len, position, reports.drop_last()), reports.last())
    }
}

impl Script {
    /// A script that has not begun.
    pub fn new(steps: Vec<Step>) -> (script: Script)
        ensures
            script.steps == steps,
            script.position == 0,
    {
        Script { steps, position: 0 }
    }

    /// Takes the report on the step handed out last and hands out the next.
    ///
    /// After a failure the run ends with that failure, whatever steps are
    /// left.  Otherwise the steps come in order, one per report, and after
    /// the last one the script is complete.
    pub fn advance(&mut self, outcome: Result<(), Error>) -> (r: Progress)
        ensures
            final(self).steps == old(self).steps,
            final(self).position == position_after(
                old(self).steps@.len(),
                old(self).position as nat,
                outcome is Ok,
            ),
            match issued(old(self).steps@.len(), old(self).position as nat, outcome is Ok) {
                Some(i) => r == Progress::Next(old(self).steps@[i as int]),
                None => match outcome {
                    Ok(_) => r == Progress::Complete,
                    Err(e) => r == Progress::Abort(e),
                },
            },
    {
        match outcome {
            Err(e) => {
                self.position = self.steps.len();
                Progress::Abort(e)
            },
            Ok(_) => {
                if self.position < self.steps.len() {
                    let step = self.steps[self.position];
                    self.position = self.position + 1;
                    Progress::Next(step)
                } else {
                    Progress::Complete
                }
            },
        }
    }
}

/// A failure is final: once a step has failed, no later report makes the
/// script hand out another step.
pub proof fn lemma_abort_is_final(len: nat, position: nat, later: Seq<bool>, ok: bool)
    ensures
        issued(len, position_after_all(len, position_after(len, position, false), later), ok)
            is None,
        position_after_all(len, position_after(len, position, false), later) == len,
    decreases later.len(),
{
    if later.len() > 0 {
        lemma_abort_is_final(len, position, later.drop_last(), ok);
    }
}

/// Steps come strictly in order: while every report is `Ok`, the report
/// number `k` hands out step number `k`, and after the last step nothing.
pub proof fn lemma_steps_in_order(len: nat, reports: Seq<bool>)
    requires
        forall|k: int| 0 <= k < reports.len() ==> reports[k],
    ensures
        position_after_all(len, 0, reports) == if reports.len() <= len {
            reports.len()
        } else {
            len
        },
        issued(len, position_after_all(len, 0, reports), true) == if reports.len() < len {
            Some(reports.len())
        } else {
            None::<nat>
        },
    decreases reports.len(),
{
    if reports.len() > 0 {
        lemma_steps_in_order(len, reports.drop_last());
    }
}

} // verus!
