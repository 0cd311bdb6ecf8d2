use mlx9061x::eeprom::{Action, EepromWrite, Stage, ERASED};
use mlx9061x::transfer::WordWrite;
use mlx9061x::Error;

/// Carries a write forward, answering the i-th action with `outcomes[i]`,
/// and returns what was asked for together with how the write ended.
fn run(
    mut write: EepromWrite,
    outcomes: &[Result<(), &'static str>],
) -> (Vec<Action>, Result<EepromWrite, Error<&'static str>>) {
    let mut asked = Vec::new();
    let mut answers = outcomes.iter();
    while let Some(action) = write.pending() {
        let Some(outcome) = answers.next() else {
            break;
        };
        asked.push(action);
        match write.step(*outcome) {
            Ok(next) => write = next,
            Err(e) => return (asked, Err(e)),
        }
    }
    (asked, Ok(write))
}

fn erase(address: u8, register: u8) -> Action {
    Action::Write(WordWrite { address, register, value: 0 })
}

fn program(address: u8, register: u8, value: u16) -> Action {
    Action::Write(WordWrite { address, register, value })
}

#[test]
fn erased_value_is_zero() {
    assert_eq!(ERASED, 0);
}

#[test]
fn fresh_write_begins_with_the_erasing_write() {
    let write = EepromWrite::new(0x5B, 0x10, 0x005C, 10);
    assert_eq!(write.stage, Stage::Erase);
    assert!(!write.is_complete());
    assert_eq!(write.pending(), Some(erase(0x5B, 0x10)));
}

#[test]
fn successful_write_is_erase_delay_value_delay() {
    let write = EepromWrite::new(0x5B, 0x10, 0xBEEF, 10);
    let (asked, end) = run(write, &[Ok(()); 4]);
    assert_eq!(
        asked,
        vec![
            erase(0x5B, 0x10),
            Action::Delay { ms: 10 },
            program(0x5B, 0x10, 0xBEEF),
            Action::Delay { ms: 10 },
        ]
    );
    let end = end.unwrap();
    assert!(end.is_complete());
    assert_eq!(end.pending(), None);
}

#[test]
fn successful_write_issues_exactly_two_writes_to_one_register() {
    for (register, value, ms) in [(0x10u8, 0x005Cu16, 5u8), (0x2E, 0x7F, 0), (0xFF, 0xFFFF, 255)] {
        let (asked, end) = run(EepromWrite::new(0x2A, register, value, ms), &[Ok(()); 6]);
        assert!(end.unwrap().is_complete());
        let writes: Vec<WordWrite> = asked
            .iter()
            .filter_map(|a| match a {
                Action::Write(w) => Some(*w),
                Action::Delay { .. } => None,
            })
            .collect();
        assert_eq!(
            writes,
            vec![
                WordWrite { address: 0x2A, register, value: 0 },
                WordWrite { address: 0x2A, register, value },
            ]
        );
        assert_eq!(asked.len(), 4);
        assert_eq!(asked[1], Action::Delay { ms });
        assert_eq!(asked[3], Action::Delay { ms });
    }
}

#[test]
fn writes_go_out_as_register_low_high() {
    let (asked, _) = run(EepromWrite::new(0x5B, 0x10, 0x1234, 10), &[Ok(()); 4]);
    let Action::Write(first) = asked[0] else { panic!("erasing write expected") };
    let Action::Write(second) = asked[2] else { panic!("write of the value expected") };
    assert_eq!(first.bytes(), [0x10, 0x00, 0x00]);
    assert_eq!(second.bytes(), [0x10, 0x34, 0x12]);
}

#[test]
fn failed_erasing_write_abandons_the_write() {
    let (asked, end) = run(EepromWrite::new(0x5B, 0x10, 0x005C, 10), &[Err("nack")]);
    assert_eq!(asked, vec![erase(0x5B, 0x10)]);
    assert!(matches!(end, Err(Error::BusError("nack"))));
}

#[test]
fn failed_write_of_the_value_abandons_the_write() {
    let outcomes = [Ok(()), Ok(()), Err("arbitration lost"), Ok(())];
    let (asked, end) = run(EepromWrite::new(0x5B, 0x10, 0x005C, 10), &outcomes);
    assert_eq!(
        asked,
        vec![erase(0x5B, 0x10), Action::Delay { ms: 10 }, program(0x5B, 0x10, 0x005C)]
    );
    assert!(matches!(end, Err(Error::BusError("arbitration lost"))));
}

#[test]
fn write_is_not_complete_before_the_last_delay() {
    let write = EepromWrite::new(0x5B, 0x10, 0x005C, 10);
    let (asked, end) = run(write, &[Ok(()); 3]);
    assert_eq!(asked.len(), 3);
    let end = end.unwrap();
    assert_eq!(end.stage, Stage::ProgramSettle);
    assert!(!end.is_complete());
    assert_eq!(end.pending(), Some(Action::Delay { ms: 10 }));
}

#[test]
fn stages_follow_one_another() {
    let mut write = EepromWrite::new(1, 2, 3, 4);
    let mut stages = vec![write.stage];
    for _ in 0..5 {
        write = write.step::<()>(Ok(())).unwrap();
        stages.push(write.stage);
    }
    assert_eq!(
        stages,
        vec![
            Stage::Erase,
            Stage::EraseSettle,
            Stage::Program,
            Stage::ProgramSettle,
            Stage::Done,
            Stage::Done,
        ]
    );
    assert_eq!((write.address, write.register, write.value, write.delay_ms), (1, 2, 3, 4));
}

#[test]
fn step_hands_on_the_bus_error_at_every_stage() {
    let mut write = EepromWrite::new(1, 2, 3, 4);
    for _ in 0..5 {
        assert!(matches!(write.step(Err(42u8)), Err(Error::BusError(42))));
        write = write.step::<u8>(Ok(())).unwrap();
    }
}

#[test]
fn whatever_fails_what_was_asked_is_the_plan_up_to_the_failure() {
    let plan = vec![
        erase(0x5B, 0x10),
        Action::Delay { ms: 10 },
        program(0x5B, 0x10, 0x005C),
        Action::Delay { ms: 10 },
    ];
    for pattern in 0u8..16 {
        let outcomes: Vec<Result<(), &'static str>> = (0..4)
            .map(|i| if pattern & (1 << i) != 0 { Ok(()) } else { Err("failed") })
            .collect();
        let successes = outcomes.iter().take_while(|o| o.is_ok()).count();
        let (asked, end) = run(EepromWrite::new(0x5B, 0x10, 0x005C, 10), &outcomes);
        if successes == 4 {
            assert_eq!(asked, plan);
            assert!(end.unwrap().is_complete());
        } else {
            assert_eq!(asked, plan[..successes + 1].to_vec());
            assert!(matches!(end, Err(Error::BusError("failed"))));
        }
    }
}
