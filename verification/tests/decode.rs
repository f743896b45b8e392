use teditor::keys::{classify_byte, ctrl_key, decode_sequence, decode_step, is_cntrl, Command,
    DecodeState, DecodeStep};

#[test]
fn arrow_up_decodes_to_move_up() {
    assert_eq!(decode_sequence(&vec![0x1b, b'[', b'A']), Command::MoveUp);
}

#[test]
fn arrow_down_decodes_to_move_down() {
    assert_eq!(decode_sequence(&vec![0x1b, b'[', b'B']), Command::MoveDown);
}

#[test]
fn arrow_right_decodes_to_move_right() {
    assert_eq!(decode_sequence(&vec![0x1b, b'[', b'C']), Command::MoveRight);
}

#[test]
fn arrow_left_decodes_to_move_left() {
    assert_eq!(decode_sequence(&vec![0x1b, b'[', b'D']), Command::MoveLeft);
}

#[test]
fn vt_three_tilde_decodes_to_delete() {
    assert_eq!(decode_sequence(&vec![0x1b, b'[', b'3', b'~']), Command::Delete);
}

#[test]
fn vt_five_tilde_decodes_to_page_up() {
    assert_eq!(decode_sequence(&vec![0x1b, b'[', b'5', b'~']), Command::PageUp);
}

#[test]
fn vt_six_tilde_decodes_to_page_down() {
    assert_eq!(decode_sequence(&vec![0x1b, b'[', b'6', b'~']), Command::PageDown);
}

#[test]
fn vt_home_and_end_variants() {
    assert_eq!(decode_sequence(&vec![0x1b, b'[', b'1', b'~']), Command::Home);
    assert_eq!(decode_sequence(&vec![0x1b, b'[', b'7', b'~']), Command::Home);
    assert_eq!(decode_sequence(&vec![0x1b, b'[', b'4', b'~']), Command::End);
    assert_eq!(decode_sequence(&vec![0x1b, b'[', b'8', b'~']), Command::End);
}

#[test]
fn csi_home_and_end_letters() {
    assert_eq!(decode_sequence(&vec![0x1b, b'[', b'H']), Command::Home);
    assert_eq!(decode_sequence(&vec![0x1b, b'[', b'F']), Command::End);
}

#[test]
fn esc_o_home_and_end() {
    assert_eq!(decode_sequence(&vec![0x1b, b'O', b'H']), Command::Home);
    assert_eq!(decode_sequence(&vec![0x1b, b'O', b'F']), Command::End);
}

#[test]
fn ctrl_q_decodes_to_quit() {
    assert_eq!(decode_sequence(&vec![0x11]), Command::Quit);
}

#[test]
fn zero_byte_is_the_no_op_sentinel() {
    assert_eq!(decode_sequence(&vec![0]), Command::NoOp);
    assert_ne!(decode_sequence(&vec![0]), decode_sequence(&vec![b'x']));
}

#[test]
fn vi_letters_move_the_cursor() {
    assert_eq!(decode_sequence(&vec![b'h']), Command::MoveLeft);
    assert_eq!(decode_sequence(&vec![b'j']), Command::MoveDown);
    assert_eq!(decode_sequence(&vec![b'k']), Command::MoveUp);
    assert_eq!(decode_sequence(&vec![b'l']), Command::MoveRight);
}

#[test]
fn bare_letters_mirror_arrow_codes() {
    assert_eq!(decode_sequence(&vec![b'A']), Command::MoveUp);
    assert_eq!(decode_sequence(&vec![b'D']), Command::MoveLeft);
}

#[test]
fn unrecognized_byte_is_unknown() {
    assert_eq!(decode_sequence(&vec![b'x']), Command::Unknown(b'x'));
    assert_eq!(decode_sequence(&vec![b'Z']), Command::Unknown(b'Z'));
}

#[test]
fn bare_escape_times_out_to_unknown() {
    // A lone escape reads its two follow-up bytes as zero.
    assert_eq!(decode_sequence(&vec![0x1b]), Command::Unknown(0x1b));
    assert_eq!(decode_sequence(&vec![0x1b, b'[']), Command::Unknown(0x1b));
}

#[test]
fn unfinished_vt_sequence_is_unknown() {
    // `ESC [ 2` is read, then the expected `~` does not come.
    assert_eq!(decode_sequence(&vec![0x1b, b'[', b'2', b'x']), Command::Unknown(0x1b));
    assert_eq!(decode_sequence(&vec![0x1b, b'[', b'2', b'~']), Command::Unknown(0x1b));
    assert_eq!(decode_sequence(&vec![0x1b, b'[', b'9', b'~']), Command::Unknown(0x1b));
}

#[test]
fn step_machine_walks_an_arrow_sequence() {
    let s1 = match decode_step(DecodeState::Start, 0x1b) {
        DecodeStep::More(s) => s,
        DecodeStep::Done(c) => panic!("finished early: {:?}", c),
    };
    assert_eq!(s1, DecodeState::Esc);
    let s2 = match decode_step(s1, b'[') {
        DecodeStep::More(s) => s,
        DecodeStep::Done(c) => panic!("finished early: {:?}", c),
    };
    assert_eq!(s2, DecodeState::EscSecond(b'['));
    match decode_step(s2, b'A') {
        DecodeStep::Done(c) => assert_eq!(c, Command::MoveUp),
        DecodeStep::More(s) => panic!("wanted more bytes in {:?}", s),
    }
}

#[test]
fn control_chord_helpers() {
    assert_eq!(ctrl_key('q'), 0x11);
    assert!(is_cntrl(0x11));
    assert!(!is_cntrl(b'q' as u32));
    assert_eq!(classify_byte(0x11), Command::Quit);
    assert_eq!(classify_byte(0), Command::NoOp);
    assert_eq!(classify_byte(b'Q'), Command::Unknown(b'Q'));
}
