use creative_coding_project::musical::note::{Key, Note, Octave, KEYBOARD_MUSICAL_NOTES, MAJOR_SCALE_INTERVALS};
use creative_coding_project::musical::poly::NoteEvent;

#[test]
fn note_values() {
    assert_eq!(Note::C.note_value(), 0);
    assert_eq!(Note::B.note_value(), 11);
    assert_eq!(Note::from_value(6), Note::Fs);
}

#[test]
fn note_transpose() {
    assert_eq!(Note::C.transpose(-1), Note::B);
    assert_eq!(Note::A.transpose(14), Note::B);
    assert_eq!(Note::E.transpose(12), Note::E);
    assert_eq!(Note::E.transpose(-24), Note::E);
    assert_eq!(Note::D.transpose(0), Note::D);
    assert_eq!(Note::G.transpose(-100), Note::Ds);
    assert_eq!(Note::C.transpose(i32::MIN), Note::E);
    assert_eq!(Note::C.transpose(i32::MAX - 11), Note::Gs);
    assert_eq!(Note::Ds.transpose(3).transpose(4), Note::Ds.transpose(7));
}

#[test]
fn note_from_key() {
    assert_eq!(Note::from_key(&Key::A), Some(Note::C));
    assert_eq!(Note::from_key(&Key::W), Some(Note::Cs));
    assert_eq!(Note::from_key(&Key::K), Some(Note::C));
    assert_eq!(Note::from_key(&Key::P), Some(Note::Ds));
    assert_eq!(Note::from_key(&Key::Z), None);
    for k in KEYBOARD_MUSICAL_NOTES.iter() {
        assert!(Note::from_key(k).is_some());
    }
}

#[test]
fn scales_and_octaves() {
    assert_eq!(MAJOR_SCALE_INTERVALS, [0, 2, 4, 5, 7, 9, 11]);
    assert_eq!(Octave::default(), Octave::C3);
    let e = NoteEvent::NoteOff { note: 60, id: Some(3) };
    assert_eq!(e, NoteEvent::NoteOff { note: 60, id: Some(3) });
}
