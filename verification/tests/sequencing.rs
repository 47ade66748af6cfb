use blink_core::board::{board_profile, Board, BoardProfile};
use blink_core::output::OutputLine;
use blink_core::pattern::PatternShape;
use blink_core::sequencer::{apply_command, PrimaryCommand, SecondaryCommand, Sequencer};

fn profile_without_secondary(shape: PatternShape) -> BoardProfile {
    BoardProfile { active_low: false, secondary_count: 0, shape }
}

#[test]
fn three_blink_cycle_timing() {
    let mut seq = Sequencer::new(profile_without_secondary(PatternShape::ThreeBlink));
    let mut delays: Vec<u32> = Vec::new();
    let mut primaries: Vec<PrimaryCommand> = Vec::new();
    for _ in 0..7 {
        let cmd = seq.step();
        delays.push(cmd.delay_ms);
        primaries.push(cmd.primary);
    }
    assert_eq!(delays, vec![100, 400, 100, 400, 100, 400, 1000]);
    assert_eq!(
        primaries,
        vec![
            PrimaryCommand::SetOn,
            PrimaryCommand::SetOff,
            PrimaryCommand::SetOn,
            PrimaryCommand::SetOff,
            PrimaryCommand::SetOn,
            PrimaryCommand::SetOff,
            PrimaryCommand::Leave,
        ]
    );
    assert_eq!(delays.iter().sum::<u32>(), 2500);
    // The next cycle is identical: no drift, no missed phase.
    let mut second: Vec<u32> = Vec::new();
    for _ in 0..7 {
        second.push(seq.step().delay_ms);
    }
    assert_eq!(second, delays);
}

#[test]
fn simple_cycle_timing() {
    let mut seq = Sequencer::new(profile_without_secondary(PatternShape::Simple {
        on_ms: 200,
        off_ms: 800,
    }));
    let mut delays: Vec<u32> = Vec::new();
    for _ in 0..4 {
        delays.push(seq.step().delay_ms);
    }
    assert_eq!(delays, vec![200, 800, 200, 800]);
    assert_eq!(delays[0] + delays[1], 1000);
}

#[test]
fn simple_cycle_timing_long_off() {
    let mut seq = Sequencer::new(profile_without_secondary(PatternShape::Simple {
        on_ms: 200,
        off_ms: 1300,
    }));
    let on = seq.step();
    let off = seq.step();
    assert_eq!(on.delay_ms + off.delay_ms, 1500);
}

#[test]
fn secondary_skipped_when_absent() {
    let mut seq = Sequencer::new(profile_without_secondary(PatternShape::ThreeBlink));
    for _ in 0..14 {
        let cmd = seq.step();
        assert_eq!(cmd.secondary, SecondaryCommand::Leave);
    }
    assert_eq!(seq.cursor.counter, 0);
}

#[test]
fn board_a_first_on_off_pair() {
    let profile = board_profile(Board::BoardA);
    assert!(profile.active_low);
    assert_eq!(profile.secondary_count, 0);
    let mut seq = Sequencer::new(profile);
    let mut led = OutputLine::new(true);
    let mut secondary: Vec<OutputLine> = Vec::new();

    let delay_on = seq.step_and_apply(&mut led, &mut secondary);
    assert_eq!(delay_on, 100);
    assert!(!led.high); // logically on = electrically low on an active-low board

    let delay_off = seq.step_and_apply(&mut led, &mut secondary);
    assert_eq!(delay_off, 400);
    assert!(led.high); // logically off = electrically high
}

#[test]
fn board_profiles() {
    assert_eq!(
        board_profile(Board::BoardA),
        BoardProfile { active_low: true, secondary_count: 0, shape: PatternShape::ThreeBlink }
    );
    assert_eq!(
        board_profile(Board::BoardB),
        BoardProfile { active_low: true, secondary_count: 0, shape: PatternShape::ThreeBlink }
    );
    assert_eq!(
        board_profile(Board::BoardC),
        BoardProfile { active_low: false, secondary_count: 0, shape: PatternShape::ThreeBlink }
    );
    assert_eq!(
        board_profile(Board::BoardD),
        BoardProfile { active_low: true, secondary_count: 3, shape: PatternShape::ThreeBlink }
    );
}

#[test]
fn board_d_chases_secondary_outputs() {
    let profile = board_profile(Board::BoardD);
    let mut seq = Sequencer::new(profile);
    let mut led = OutputLine::new(true);
    // All secondary lines start electrically high (logically off, active low).
    let mut secondary = vec![OutputLine::new(true); 3];

    let mut selected: Vec<usize> = Vec::new();
    for step in 0..14 {
        let cmd = seq.step();
        match cmd.secondary {
            SecondaryCommand::AllOn => {
                assert!(matches!(step % 7, 0 | 2 | 4));
            }
            SecondaryCommand::OneOff { index } => {
                assert!(matches!(step % 7, 1 | 3 | 5));
                selected.push(index);
            }
            SecondaryCommand::Leave => {
                // only the pause phase leaves the secondary set alone
                assert_eq!(step % 7, 6);
            }
        }
        apply_command(&cmd, profile.active_low, &mut led, &mut secondary);
        match cmd.secondary {
            SecondaryCommand::AllOn => {
                assert!(secondary.iter().all(|line| !line.high));
            }
            SecondaryCommand::OneOff { index } => {
                for (position, line) in secondary.iter().enumerate() {
                    // only the selected line went off; the rest keep their level
                    assert_eq!(line.high, position == index);
                }
            }
            SecondaryCommand::Leave => {}
        }
    }
    // Six off phases in two cycles: the selection walks the set round-robin.
    assert_eq!(selected, vec![0, 1, 2, 0, 1, 2]);
    assert_eq!(seq.cursor.counter, 6);
}
