use tgsemu::buttons::{poll, Notice, KEY_A, KEY_B};
use tgsemu::clock::{IoClock, IO_PERIOD};
use tgsemu::display::{cell, render_display, render_row, Row};
use tgsemu::fault::Fault;
use tgsemu::program::{fetch, parse_program, Instruction};

fn text(bytes: Vec<u8>) -> String {
    String::from_utf8(bytes).unwrap()
}

#[test]
fn all_segments_lit() {
    let dp = [0x7F; 4];
    assert_eq!(text(render_row(dp, Row::Top)), "  _   _   _   _\n");
    assert_eq!(text(render_row(dp, Row::Middle)), " |_| |_| |_| |_|\n");
    assert_eq!(text(render_row(dp, Row::Bottom)), " |_| |_| |_| |_|\n");
}

#[test]
fn no_segment_lit() {
    let dp = [0x00; 4];
    assert_eq!(text(render_row(dp, Row::Top)), "              \n");
    assert_eq!(text(render_row(dp, Row::Middle)), "               \n");
    assert_eq!(text(render_row(dp, Row::Bottom)), "               \n");
}

#[test]
fn unused_bit_lights_nothing() {
    assert_eq!(render_display([0x80; 4]), render_display([0x00; 4]));
    assert_eq!(render_display([0xFF; 4]), render_display([0x7F; 4]));
}

#[test]
fn each_bit_lights_its_segment() {
    let blank_rows = ["   ", "   ", "   "];
    let lit = [
        (0u8, 0usize, 1usize, '_'),
        (1, 1, 2, '|'),
        (2, 2, 2, '|'),
        (3, 2, 1, '_'),
        (4, 2, 0, '|'),
        (5, 1, 0, '|'),
        (6, 1, 1, '_'),
    ];
    for (bit, row, column, mark) in lit {
        let digit = 1u8 << bit;
        for (r, which) in [Row::Top, Row::Middle, Row::Bottom].into_iter().enumerate() {
            let mut expected: Vec<char> = blank_rows[r].chars().collect();
            if r == row {
                expected[column] = mark;
            }
            for c in 0..3u8 {
                assert_eq!(cell(digit, which, c) as char, expected[c as usize]);
            }
        }
    }
}

#[test]
fn cells_outside_the_digit_are_blank() {
    for column in 3..=255u8 {
        assert_eq!(cell(0xFF, Row::Top, column), b' ');
        assert_eq!(cell(0xFF, Row::Middle, column), b' ');
        assert_eq!(cell(0xFF, Row::Bottom, column), b' ');
    }
}

#[test]
fn display_register_three_is_leftmost() {
    // 0x06 lights the two right segments: the digit 1.
    let dp = [0x00, 0x00, 0x00, 0x06];
    assert_eq!(text(render_row(dp, Row::Top)), "              \n");
    assert_eq!(text(render_row(dp, Row::Middle)), "   |           \n");
    assert_eq!(text(render_row(dp, Row::Bottom)), "   |           \n");
    let dp = [0x06, 0x00, 0x00, 0x00];
    assert_eq!(text(render_row(dp, Row::Top)), "              \n");
    assert_eq!(text(render_row(dp, Row::Middle)), "               |\n");
    assert_eq!(text(render_row(dp, Row::Bottom)), "               |\n");
}

#[test]
fn rows_end_behind_their_last_segment() {
    // Top segment of the rightmost digit.
    assert_eq!(render_row([0x01, 0, 0, 0], Row::Top).len(), 16);
    assert_eq!(render_row([0x00, 0, 0, 0], Row::Top).len(), 15);
    // Upper right segment of the rightmost digit.
    assert_eq!(render_row([0x02, 0, 0, 0], Row::Middle).len(), 17);
    assert_eq!(render_row([0x60, 0, 0, 0], Row::Middle).len(), 16);
    // Lower right segment of the rightmost digit.
    assert_eq!(render_row([0x04, 0, 0, 0], Row::Bottom).len(), 17);
    assert_eq!(render_row([0x18, 0, 0, 0], Row::Bottom).len(), 16);
    assert_eq!(text(render_row([0x60, 0, 0, 0], Row::Middle)), "             |_\n");
    assert_eq!(text(render_row([0x18, 0, 0, 0], Row::Bottom)), "             |_\n");
}

#[test]
fn frame_spells_digits() {
    // 1, 2, 3, 4 from left to right.
    let dp = [0x66, 0x4F, 0x5B, 0x06];
    let frame = text(render_display(dp));
    let expected = "\x1B[0;0H".to_string()
        + "      _   _   \n"
        + "   |  _|  _| |_|\n"
        + "   | |_   _|   |\n";
    assert_eq!(frame, expected);
}

#[test]
fn frame_is_cursor_home_and_three_rows() {
    for dp in [[0u8; 4], [0x7F; 4], [0x01, 0x22, 0x44, 0x08], [0xFF, 0x80, 0x3F, 0x40]] {
        let mut expected = b"\x1B[0;0H".to_vec();
        expected.extend(render_row(dp, Row::Top));
        expected.extend(render_row(dp, Row::Middle));
        expected.extend(render_row(dp, Row::Bottom));
        assert_eq!(render_display(dp), expected);
    }
}

#[test]
fn key_a_presses_a() {
    let mut bt = [0, 1];
    assert_eq!(poll(&mut bt, Some(b'a')), Some(Notice::PressedA));
    assert_eq!(bt, [1, 0]);
    assert_eq!(KEY_A, 97);
}

#[test]
fn key_b_presses_b() {
    let mut bt = [1, 0];
    assert_eq!(poll(&mut bt, Some(b'b')), Some(Notice::PressedB));
    assert_eq!(bt, [0, 1]);
    assert_eq!(KEY_B, 98);
}

#[test]
fn other_key_changes_nothing() {
    for key in [0u8, b'A', b'B', b'c', b'\n', 96, 99, 255] {
        for held in [[0u8, 0u8], [1, 0], [0, 1], [7, 9]] {
            let mut bt = held;
            assert_eq!(poll(&mut bt, Some(key)), None);
            assert_eq!(bt, held);
        }
    }
}

#[test]
fn no_key_releases_both() {
    for held in [[0u8, 0u8], [1, 0], [0, 1], [7, 9]] {
        let mut bt = held;
        assert_eq!(poll(&mut bt, None), Some(Notice::Released));
        assert_eq!(bt, [0, 0]);
    }
}

#[test]
fn notices_as_text() {
    assert_eq!(Notice::PressedA.text(), "A pressed!");
    assert_eq!(Notice::PressedB.text(), "B pressed!");
    assert_eq!(Notice::Released.text(), "          ");
    assert_eq!(Notice::Released.text().len(), Notice::PressedA.text().len());
}

#[test]
fn image_splits_into_instructions() {
    let image = [0x61, 0x02, 0x42, 0x10, 0x00, 0x01, 0x50, 0x00, 0xFF];
    assert_eq!(
        parse_program(&image),
        Ok(vec![
            Instruction { opcode: 0x61, operand_left: 0x02, operand_right: 0x42 },
            Instruction { opcode: 0x10, operand_left: 0x00, operand_right: 0x01 },
            Instruction { opcode: 0x50, operand_left: 0x00, operand_right: 0xFF },
        ])
    );
}

#[test]
fn empty_image_is_empty_program() {
    assert_eq!(parse_program(&[]), Ok(vec![]));
}

#[test]
fn partial_record_is_malformed() {
    assert_eq!(parse_program(&[0x61]), Err(Fault::MalformedProgramImage));
    assert_eq!(parse_program(&[0x61, 0x02]), Err(Fault::MalformedProgramImage));
    assert_eq!(parse_program(&[0x61, 0x02, 0x42, 0x10]), Err(Fault::MalformedProgramImage));
    assert_eq!(parse_program(&[0x61, 0x02, 0x42, 0x10, 0x00]), Err(Fault::MalformedProgramImage));
}

#[test]
fn image_length_decides() {
    for length in 0..100usize {
        let image: Vec<u8> = (0..length).map(|i| i as u8).collect();
        match parse_program(&image) {
            Ok(program) => {
                assert_eq!(length % 3, 0);
                assert_eq!(program.len(), length / 3);
                for (i, instruction) in program.iter().enumerate() {
                    assert_eq!(instruction.opcode, (3 * i) as u8);
                    assert_eq!(instruction.operand_left, (3 * i + 1) as u8);
                    assert_eq!(instruction.operand_right, (3 * i + 2) as u8);
                }
            }
            Err(fault) => {
                assert_ne!(length % 3, 0);
                assert_eq!(fault, Fault::MalformedProgramImage);
            }
        }
    }
}

#[test]
fn parser_does_not_judge_opcodes() {
    assert_eq!(
        parse_program(&[0xFF, 0xFF, 0xFF]),
        Ok(vec![Instruction { opcode: 0xFF, operand_left: 0xFF, operand_right: 0xFF }])
    );
}

#[test]
fn fetch_by_program_counter() {
    let program = parse_program(&[1, 2, 3, 4, 5, 6]).unwrap();
    assert_eq!(fetch(&program, 0), Some(Instruction { opcode: 1, operand_left: 2, operand_right: 3 }));
    assert_eq!(fetch(&program, 1), Some(Instruction { opcode: 4, operand_left: 5, operand_right: 6 }));
    assert_eq!(fetch(&program, 2), None);
    assert_eq!(fetch(&program, 255), None);
    assert_eq!(fetch(&[], 0), None);
}

#[test]
fn fetch_reaches_all_256_instructions() {
    let image: Vec<u8> = (0..300usize).flat_map(|i| [(i % 256) as u8, (i / 256) as u8, 0]).collect();
    let program = parse_program(&image).unwrap();
    assert_eq!(program.len(), 300);
    for pc in 0..=255u8 {
        assert_eq!(fetch(&program, pc), Some(Instruction { opcode: pc, operand_left: 0, operand_right: 0 }));
    }
}

#[test]
fn clock_is_due_after_each_period() {
    assert_eq!(IO_PERIOD, 2000);
    let mut clock = IoClock::new();
    let mut due_at = Vec::new();
    for tick in 1..=6001u32 {
        if clock.tick() {
            due_at.push(tick);
        }
    }
    assert_eq!(due_at, vec![2001, 4001, 6001]);
}

#[test]
fn clock_is_not_due_at_first() {
    let mut clock = IoClock::new();
    assert!(!clock.tick());
    for _ in 1..2000 {
        assert!(!clock.tick());
    }
    assert!(clock.tick());
    assert!(!clock.tick());
}
