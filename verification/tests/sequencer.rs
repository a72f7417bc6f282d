use lifx_core::{ApplicationRequest, Message, MultiZoneEffectType, HSBK};
use lifx_more::command::{Apply, Command, ZoneEffect};
use lifx_more::effect::{ColourSpec, Effect, Operation, Sequence};
use lifx_more::light::Light;
use lifx_more::sequencer::{off, Pause, Progress, Script, Step, UNBOUNDED_NS};
use lifx_more::Error;

const RED: ColourSpec = ColourSpec(0, 65535, 65535, 3500);
const BLUE: ColourSpec = ColourSpec(43690, 65535, 65535, 3500);

fn light() -> Light<u32> {
    Light::new(1)
}

fn zones(start_index: u8, end_index: u8, color: ColourSpec, duration: u32) -> Step {
    Step::Send(Command::SetColorZones {
        start_index,
        end_index,
        color,
        duration,
        apply: Apply::NoApply,
    })
}

fn commit(duration: u32) -> Step {
    Step::Send(Command::SetColorZones {
        start_index: 0,
        end_index: 0,
        color: ColourSpec(0, 0, 0, 4500),
        duration,
        apply: Apply::ApplyOnly,
    })
}

fn rotate(period: u32, duration: u64) -> Step {
    Step::Send(Command::SetMultiZoneEffect {
        instance_id: 1,
        typ: ZoneEffect::Move,
        reserved: 0,
        speed: period,
        duration,
        reserved7: 0,
        reserved8: 0,
        parameters: [0, 1, 0, 0, 0, 0, 0, 0],
    })
}

fn nanos(steps: &[Step]) -> u128 {
    let mut total: u128 = 0;
    for step in steps {
        total += match step {
            Step::Sleep(Pause::Millis(ms)) => *ms as u128 * 1_000_000,
            Step::Sleep(Pause::Nanos(ns)) => *ns as u128,
            Step::Send(_) => 0,
        };
    }
    total
}

fn demo() -> Sequence {
    Sequence {
        effects: vec![
            ("B".to_string(), Effect::SolidColour(BLUE)),
            ("A".to_string(), Effect::SolidColour(RED)),
        ],
        ops: vec![
            Operation::Transition { to: "A".to_string(), transition_ms: 500 },
            Operation::DelayMs(100),
            Operation::Rotate { period: 1000, duration_ns: Some(2000) },
        ],
    }
}

#[test]
fn dark_is_black_at_4500_kelvin() {
    assert_eq!(off(), ColourSpec(0, 0, 0, 4500));
}

#[test]
fn an_unbounded_rotation_lasts_half_the_range() {
    assert_eq!(UNBOUNDED_NS, u64::MAX / 2);
}

#[test]
fn a_solid_colour_is_one_command_and_a_wait() {
    let steps = light().apply(&Effect::SolidColour(RED), 750);
    assert_eq!(
        steps,
        vec![
            Step::Send(Command::LightSetColor { reserved: 0, color: RED, duration: 750 }),
            Step::Sleep(Pause::Millis(750)),
        ]
    );
}

#[test]
fn zone_colours_are_one_command_per_segment_and_a_commit() {
    let effect =
        Effect::MultiColour { colours: vec![Some(RED), None, Some(BLUE)], scale_factor: 4 };
    let steps = light().apply(&effect, 20);
    assert_eq!(
        steps,
        vec![
            zones(0, 4, RED, 20),
            zones(4, 8, ColourSpec(0, 0, 0, 4500), 20),
            zones(8, 12, BLUE, 20),
            commit(20),
            Step::Sleep(Pause::Millis(20)),
        ]
    );
}

#[test]
fn no_zone_colours_are_still_committed() {
    let effect = Effect::MultiColour { colours: vec![], scale_factor: 4 };
    assert_eq!(light().apply(&effect, 0), vec![commit(0), Step::Sleep(Pause::Millis(0))]);
}

#[test]
fn a_scale_factor_of_zero_puts_every_segment_at_zone_zero() {
    let effect = Effect::MultiColour { colours: vec![Some(RED), Some(BLUE)], scale_factor: 0 };
    let steps = light().apply(&effect, 1);
    assert_eq!(steps[0], zones(0, 0, RED, 1));
    assert_eq!(steps[1], zones(0, 0, BLUE, 1));
}

#[test]
fn zone_indices_wrap_at_eight_bits() {
    let effect = Effect::MultiColour { colours: vec![Some(RED); 5], scale_factor: 64 };
    let steps = light().apply(&effect, 1);
    assert_eq!(steps[2], zones(128, 192, RED, 1));
    assert_eq!(steps[3], zones(192, 0, RED, 1));
    assert_eq!(steps[4], zones(0, 64, RED, 1));
    let long = Effect::MultiColour { colours: vec![None; 300], scale_factor: 3 };
    let steps = light().apply(&long, 1);
    assert_eq!(steps.len(), 302);
    assert_eq!(steps[85], zones(255, 2, ColourSpec(0, 0, 0, 4500), 1));
    assert_eq!(steps[299], zones(129, 132, ColourSpec(0, 0, 0, 4500), 1));
}

#[test]
fn a_sequence_runs_its_operations_in_order() {
    let steps = light().run_sequence(&demo());
    assert_eq!(
        steps,
        vec![
            Step::Send(Command::LightSetColor { reserved: 0, color: RED, duration: 500 }),
            Step::Sleep(Pause::Millis(500)),
            Step::Sleep(Pause::Millis(100)),
            rotate(1000, 2000),
            Step::Sleep(Pause::Nanos(2000)),
        ]
    );
    assert_eq!(nanos(&steps), 500_000_000 + 100_000_000 + 2000);
}

#[test]
fn a_rotation_without_duration_is_unbounded() {
    let sequence = Sequence {
        effects: vec![],
        ops: vec![Operation::Rotate { period: 30, duration_ns: None }],
    };
    assert_eq!(
        light().run_sequence(&sequence),
        vec![rotate(30, 0x7fff_ffff_ffff_ffff), Step::Sleep(Pause::Nanos(0x7fff_ffff_ffff_ffff))]
    );
}

#[test]
fn an_empty_sequence_does_nothing() {
    let sequence = Sequence { effects: vec![], ops: vec![] };
    assert_eq!(light().run_sequence(&sequence), vec![]);
}

#[test]
fn a_sequence_may_use_an_effect_repeatedly() {
    let sequence = Sequence {
        effects: vec![(
            "stripes".to_string(),
            Effect::MultiColour { colours: vec![Some(RED)], scale_factor: 2 },
        )],
        ops: vec![
            Operation::Transition { to: "stripes".to_string(), transition_ms: 0 },
            Operation::Transition { to: "stripes".to_string(), transition_ms: 9 },
        ],
    };
    assert_eq!(
        light().run_sequence(&sequence),
        vec![
            zones(0, 2, RED, 0),
            commit(0),
            Step::Sleep(Pause::Millis(0)),
            zones(0, 2, RED, 9),
            commit(9),
            Step::Sleep(Pause::Millis(9)),
        ]
    );
}

#[test]
fn a_script_hands_out_its_steps_one_per_report() {
    let steps = light().run_sequence(&demo());
    let mut script = Script::new(steps.clone());
    assert_eq!(script.position, 0);
    for (i, expected) in steps.iter().enumerate() {
        match script.advance(Ok(())) {
            Progress::Next(step) => assert_eq!(step, *expected),
            other => panic!("{:?}", other),
        }
        assert_eq!(script.position, i + 1);
    }
    assert!(matches!(script.advance(Ok(())), Progress::Complete));
    assert!(matches!(script.advance(Ok(())), Progress::Complete));
    assert_eq!(script.position, steps.len());
    assert_eq!(script.steps, steps);
}

#[test]
fn a_failed_transition_ends_the_run_before_the_rotation() {
    let mut script = Script::new(light().run_sequence(&demo()));
    let mut performed = Vec::new();
    let mut report = Ok(());
    let ended = loop {
        match script.advance(report) {
            Progress::Next(step) => {
                performed.push(step);
                report = match step {
                    Step::Send(Command::LightSetColor { .. }) => Err(Error::WrongResponse),
                    _ => Ok(()),
                };
            },
            other => break other,
        }
    };
    assert!(matches!(ended, Progress::Abort(Error::WrongResponse)));
    assert_eq!(
        performed,
        vec![Step::Send(Command::LightSetColor { reserved: 0, color: RED, duration: 500 })]
    );
    assert!(matches!(script.advance(Ok(())), Progress::Complete));
    assert_eq!(script.position, 5);
}

#[test]
fn a_failure_is_passed_on_as_it_came() {
    let mut script = Script::new(vec![Step::Sleep(Pause::Millis(1))]);
    assert!(matches!(
        script.advance(Err(Error::IncompleteTransmission)),
        Progress::Abort(Error::IncompleteTransmission)
    ));
    let io = std::io::Error::new(std::io::ErrorKind::TimedOut, "late");
    match script.advance(Err(Error::from(io))) {
        Progress::Abort(Error::IoError(e)) => assert_eq!(e.kind(), std::io::ErrorKind::TimedOut),
        other => panic!("{:?}", other),
    }
    let codec = lifx_core::Error::UnknownMessageType(7);
    assert!(matches!(
        script.advance(Err(Error::from(codec))),
        Progress::Abort(Error::LifxError(lifx_core::Error::UnknownMessageType(7)))
    ));
}

#[test]
fn commands_become_the_messages_they_stand_for() {
    assert_eq!(Command::GetService.message(), Message::GetService);
    assert_eq!(
        Command::LightSetColor { reserved: 9, color: ColourSpec(1, 2, 3, 4), duration: 5 }
            .message(),
        Message::LightSetColor {
            reserved: 9,
            color: HSBK { hue: 1, saturation: 2, brightness: 3, kelvin: 4 },
            duration: 5,
        }
    );
    let applies = [
        (Apply::NoApply, ApplicationRequest::NoApply),
        (Apply::Apply, ApplicationRequest::Apply),
        (Apply::ApplyOnly, ApplicationRequest::ApplyOnly),
    ];
    for (ours, theirs) in applies {
        assert_eq!(
            Command::SetColorZones {
                start_index: 6,
                end_index: 7,
                color: ColourSpec(4, 3, 2, 1),
                duration: 8,
                apply: ours,
            }
            .message(),
            Message::SetColorZones {
                start_index: 6,
                end_index: 7,
                color: HSBK { hue: 4, saturation: 3, brightness: 2, kelvin: 1 },
                duration: 8,
                apply: theirs,
            }
        );
    }
    let effects = [
        (ZoneEffect::Off, MultiZoneEffectType::Off),
        (ZoneEffect::Move, MultiZoneEffectType::Move),
        (ZoneEffect::Reserved1, MultiZoneEffectType::Reserved1),
        (ZoneEffect::Reserved2, MultiZoneEffectType::Reserved2),
    ];
    for (ours, theirs) in effects {
        assert_eq!(
            Command::SetMultiZoneEffect {
                instance_id: 1,
                typ: ours,
                reserved: 2,
                speed: 3,
                duration: 4,
                reserved7: 5,
                reserved8: 6,
                parameters: [7, 8, 9, 10, 11, 12, 13, 14],
            }
            .message(),
            Message::SetMultiZoneEffect {
                instance_id: 1,
                typ: theirs,
                reserved: 2,
                speed: 3,
                duration: 4,
                reserved7: 5,
                reserved8: 6,
                parameters: [7, 8, 9, 10, 11, 12, 13, 14],
            }
        );
    }
}
