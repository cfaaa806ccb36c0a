use scale_trainer::matcher::{FsCtx, MatchOutcome};
use scale_trainer::naming::get_note;
use scale_trainer::scale::{ScaleCreator, ScaleCreatorArgs, ScaleMode, SelectionAborted};
use scale_trainer::session::{Feedback, FreeScale, ScaleTrainer, TrainerFeedback};
use scale_trainer::slot::{EventSlot, RawEvent};

const MODES: [ScaleMode; 4] = [
    ScaleMode::Major,
    ScaleMode::NaturalMinor,
    ScaleMode::HarmonicMinor,
    ScaleMode::MelodicMinor,
];

fn notes(scale: ScaleMode, octaves: u8, offset: u8) -> Vec<u8> {
    ScaleCreator::build_notes(&ScaleCreatorArgs { scale, octaves, offset })
}

#[test]
fn length_is_fourteen_per_octave_plus_one() {
    for mode in MODES {
        for octaves in 1u8..=4 {
            for offset in [0u8, 5, 90] {
                let v = notes(mode, octaves, offset);
                assert_eq!(v.len(), 14 * octaves as usize + 1);
            }
        }
    }
}

#[test]
fn sequence_rises_then_falls() {
    for mode in MODES {
        for octaves in 1u8..=4 {
            let v = notes(mode, octaves, 3);
            let peak = 7 * octaves as usize;
            for k in 0..peak {
                assert!(v[k] <= v[k + 1]);
            }
            for k in peak..v.len() - 1 {
                assert!(v[k] >= v[k + 1]);
            }
            assert_eq!(v[0], v[v.len() - 1]);
            assert_eq!(v[0], 24);
        }
    }
}

#[test]
fn major_one_octave_from_reference_key() {
    let expected: Vec<u8> = [0u8, 2, 4, 5, 7, 9, 11, 12, 11, 9, 7, 5, 4, 2, 0]
        .iter()
        .map(|k| k + 21)
        .collect();
    assert_eq!(notes(ScaleMode::Major, 1, 0), expected);
}

#[test]
fn melodic_minor_descends_by_its_own_intervals() {
    let expected: Vec<u8> = [0u8, 2, 3, 5, 7, 9, 11, 12, 11, 9, 7, 5, 3, 2, 0]
        .iter()
        .map(|k| k + 33)
        .collect();
    assert_eq!(notes(ScaleMode::MelodicMinor, 1, 12), expected);
}

#[test]
fn two_octaves_natural_minor() {
    let v = notes(ScaleMode::NaturalMinor, 2, 0);
    assert_eq!(&v[..8], &[21, 23, 24, 26, 28, 29, 31, 33]);
    assert_eq!(v[14], 45);
    assert_eq!(&v[15..], &[43, 41, 40, 38, 36, 35, 33, 31, 29, 28, 26, 24, 23, 21]);
}

#[test]
fn up_and_down_runs() {
    let major = [0u8, 2, 4, 5, 7, 9, 11];
    assert_eq!(
        ScaleCreator::build_scales_up(&major, 2, 1),
        vec![22, 24, 26, 27, 29, 31, 33, 34, 36, 38, 39, 41, 43, 45]
    );
    assert_eq!(
        ScaleCreator::build_scales_down(&major, 2, 1),
        vec![45, 43, 41, 39, 38, 36, 34, 33, 31, 29, 27, 26, 24, 22]
    );
    assert_eq!(ScaleCreator::build_scales_up(&major, 0, 1), Vec::<u8>::new());
}

#[test]
fn matcher_exact_sequence() {
    let seq = notes(ScaleMode::HarmonicMinor, 1, 0);
    let mut run = FsCtx::new(seq.clone());
    for (i, k) in seq.iter().enumerate() {
        let out = run.feed(*k);
        if i + 1 == seq.len() {
            assert_eq!(out, MatchOutcome::Complete);
            assert!(run.is_complete());
        } else {
            assert_eq!(out, MatchOutcome::Correct);
            assert!(!run.is_complete());
        }
        assert_eq!(run.cursor(), i + 1);
    }
    assert_eq!(run.feed(21), MatchOutcome::Complete);
    assert_eq!(run.cursor(), seq.len());
}

#[test]
fn matcher_mismatch_keeps_cursor() {
    let seq = notes(ScaleMode::Major, 1, 0);
    let mut run = FsCtx::new(seq.clone());
    for k in &seq[..5] {
        run.feed(*k);
    }
    assert_eq!(run.expected_key(), Some(seq[5]));
    assert_eq!(run.feed(seq[5] + 1), MatchOutcome::Incorrect);
    assert_eq!(run.cursor(), 5);
    assert_eq!(run.feed(seq[5]), MatchOutcome::Correct);
    assert_eq!(run.cursor(), 6);
}

#[test]
fn selection_keys() {
    assert_eq!(ScaleCreator::scale_selection(21), Ok(ScaleMode::Major));
    assert_eq!(ScaleCreator::scale_selection(23), Ok(ScaleMode::NaturalMinor));
    assert_eq!(ScaleCreator::scale_selection(24), Ok(ScaleMode::HarmonicMinor));
    assert_eq!(ScaleCreator::scale_selection(26), Ok(ScaleMode::MelodicMinor));
    assert_eq!(ScaleCreator::scale_selection(22), Err(SelectionAborted));
    assert_eq!(ScaleCreator::octaves_selection(24), Ok(3));
    assert_eq!(ScaleCreator::octaves_selection(25), Err(SelectionAborted));
    assert_eq!(ScaleCreator::startkey_selection(21, 1), Ok(0));
    assert_eq!(ScaleCreator::startkey_selection(60, 1), Ok(39));
    assert_eq!(ScaleCreator::startkey_selection(115, 1), Ok(94));
    assert_eq!(ScaleCreator::startkey_selection(116, 1), Err(SelectionAborted));
    assert_eq!(ScaleCreator::startkey_selection(79, 4), Ok(58));
    assert_eq!(ScaleCreator::startkey_selection(80, 4), Err(SelectionAborted));
    assert_eq!(ScaleCreator::startkey_selection(111, 4), Err(SelectionAborted));
    assert_eq!(ScaleCreator::startkey_selection(20, 1), Err(SelectionAborted));
}

#[test]
fn create_scale_from_keys() {
    assert_eq!(ScaleCreator::create_scale(21, 21, 21), Ok(notes(ScaleMode::Major, 1, 0)));
    let highest = ScaleCreator::create_scale(26, 26, 79);
    assert_eq!(highest, Ok(notes(ScaleMode::MelodicMinor, 4, 58)));
    assert_eq!(highest.unwrap().iter().max(), Some(&127));
    assert_eq!(ScaleCreator::create_scale(21, 26, 111), Err(SelectionAborted));
    assert_eq!(ScaleCreator::create_scale(26, 26, 80), Err(SelectionAborted));
    assert_eq!(ScaleCreator::create_scale(27, 21, 21), Err(SelectionAborted));
    assert_eq!(ScaleCreator::create_scale(21, 22, 21), Err(SelectionAborted));
    assert_eq!(ScaleCreator::create_scale(21, 21, 0), Err(SelectionAborted));
}

#[test]
fn out_of_range_mode_key_aborts() {
    let mut s = FreeScale::new();
    assert_eq!(s.run(60), Feedback::Aborted);
    assert!(matches!(s, FreeScale::Aborted));
    assert_eq!(s.run(21), Feedback::Ignored);

    let mut t = ScaleTrainer::new();
    assert_eq!(t.on_key_down(21), TrainerFeedback::SessionStarted);
    assert_eq!(t.on_key_down(60), TrainerFeedback::Session(Feedback::Aborted));
    assert!(t.in_menu());
}

#[test]
fn menu_ignores_other_keys() {
    let mut t = ScaleTrainer::new();
    assert_eq!(t.on_key_down(22), TrainerFeedback::Menu);
    assert!(t.in_menu());
}

#[test]
fn octave_and_start_key_aborts() {
    let mut s = FreeScale::new();
    s.run(21);
    assert_eq!(s.run(22), Feedback::Aborted);
    let mut s = FreeScale::new();
    s.run(21);
    s.run(21);
    assert_eq!(s.run(20), Feedback::Aborted);
    assert!(s.is_over());
    let mut s = FreeScale::new();
    s.run(21);
    s.run(26);
    assert_eq!(s.run(80), Feedback::Aborted);
    assert!(matches!(s, FreeScale::Aborted));
}

#[test]
fn full_session() {
    let mut t = ScaleTrainer::new();
    assert_eq!(t.on_key_down(21), TrainerFeedback::SessionStarted);
    assert_eq!(
        t.on_key_down(23),
        TrainerFeedback::Session(Feedback::ModeChosen(ScaleMode::NaturalMinor))
    );
    assert_eq!(t.on_key_down(21), TrainerFeedback::Session(Feedback::OctavesChosen(1)));
    let args = ScaleCreatorArgs { scale: ScaleMode::NaturalMinor, octaves: 1, offset: 12 };
    assert_eq!(t.on_key_down(33), TrainerFeedback::Session(Feedback::PlaybackStarted(args)));
    let seq = ScaleCreator::build_notes(&args);
    assert_eq!(
        t.on_key_down(34),
        TrainerFeedback::Session(Feedback::Played(MatchOutcome::Incorrect))
    );
    for (i, k) in seq.iter().enumerate() {
        let fb = t.on_key_down(*k);
        let want = if i + 1 == seq.len() { MatchOutcome::Complete } else { MatchOutcome::Correct };
        assert_eq!(fb, TrainerFeedback::Session(Feedback::Played(want)));
        assert_eq!(t.in_menu(), i + 1 == seq.len());
    }
}

#[test]
fn slot_takes_key_down_whole() {
    let mut slot = EventSlot::new();
    assert_eq!(slot.take_key_down(), None);
    slot.write(&[144, 60, 100]);
    slot.write(&[144, 62, 90]);
    assert_eq!(slot.take_key_down(), Some(RawEvent { status: 144, data1: 62, data2: 90 }));
    assert_eq!(slot.event, RawEvent::idle());
    assert_eq!(slot.take_key_down(), None);
}

#[test]
fn slot_filters_key_up_and_malformed() {
    let mut slot = EventSlot::new();
    slot.write(&[128, 60, 0]);
    assert_eq!(slot.take_key_down(), None);
    assert_eq!(slot.event, RawEvent { status: 128, data1: 60, data2: 0 });
    assert_eq!(slot.take_any(), Some(RawEvent { status: 128, data1: 60, data2: 0 }));
    assert_eq!(slot.take_any(), None);
    slot.write(&[144, 61, 70]);
    slot.write(&[144, 1]);
    assert_eq!(slot.event.key(), 61);
    slot.write(&[176, 7, 100]);
    assert_eq!(slot.take_key_down(), None);
}

#[test]
fn note_names() {
    let a0 = get_note(21);
    assert_eq!((a0.name(), a0.octave), ("A", 0));
    let c4 = get_note(60);
    assert_eq!((c4.name(), c4.pitch_class, c4.octave), ("C", 3, 3));
    let gs = get_note(32);
    assert_eq!((gs.name(), gs.octave), ("G#", 0));
    let a1 = get_note(33);
    assert_eq!((a1.name(), a1.octave), ("A", 1));
}
