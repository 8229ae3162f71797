use parrot::cursor::ReadCursor;
use parrot::error::{InitError, LOAD_FAILED, LOAD_OK};
use parrot::frames::{frame, FRAME_COUNT};
use parrot::host::{DEVICE_NAME, FIRST_MINOR, MINOR_COUNT, READ_PAUSE_MS};

#[test]
fn table_holds_ten_lines() {
    assert_eq!(FRAME_COUNT, 10);
    for index in 0..FRAME_COUNT {
        assert!(!frame(index).is_empty());
        assert!(frame(index).ends_with('\n'));
        assert!(frame(index).is_ascii());
    }
}

#[test]
fn table_lines_are_exact() {
    assert_eq!(frame(0), "Pieces of eight!\n");
    assert_eq!(frame(1), "Polly wants a cracker.\n");
    assert_eq!(frame(2), "Squawk!\n");
    assert_eq!(frame(3), "Who's a pretty bird?\n");
    assert_eq!(frame(4), "Hello, sailor.\n");
    assert_eq!(frame(5), "Land ho!\n");
    assert_eq!(frame(6), "Shiver me timbers.\n");
    assert_eq!(frame(7), "Dead men tell no tales.\n");
    assert_eq!(frame(8), "Walk the plank!\n");
    assert_eq!(frame(9), "Party or die.\n");
}

#[test]
fn table_line_lengths_are_exact() {
    let expected: [usize; 10] = [17, 23, 8, 21, 15, 9, 19, 24, 16, 14];
    for index in 0..10 {
        assert_eq!(frame(index).len(), expected[index]);
        assert_eq!(frame(index).as_bytes().len(), expected[index]);
    }
}

#[test]
fn table_lines_differ_from_each_other() {
    for a in 0..10 {
        for b in 0..10 {
            if a != b {
                assert_ne!(frame(a), frame(b));
            }
        }
    }
}

#[test]
fn lookup_past_the_table_gives_the_empty_line() {
    assert_eq!(frame(10), "");
    assert_eq!(frame(11), "");
    assert_eq!(frame(255), "");
    assert_eq!(frame(usize::MAX), "");
}

#[test]
fn fresh_cursor_stands_at_zero() {
    assert_eq!(ReadCursor::new().index(), 0);
}

#[test]
fn cursor_advances_by_one_and_wraps_after_nine() {
    let mut cursor = ReadCursor::new();
    let expected: [usize; 12] = [1, 2, 3, 4, 5, 6, 7, 8, 9, 0, 1, 2];
    for step in 0..12 {
        cursor.advance();
        assert_eq!(cursor.index(), expected[step]);
    }
}

#[test]
fn cursor_after_k_steps_stands_at_k_mod_ten() {
    let mut cursor = ReadCursor::new();
    for k in 0..1000usize {
        assert_eq!(cursor.index(), k % 10);
        cursor.advance();
    }
}

#[test]
fn ten_steps_bring_any_cursor_back() {
    let mut cursor = ReadCursor::new();
    for start in 0..10usize {
        let before = cursor;
        assert_eq!(before.index(), start);
        for _ in 0..10 {
            cursor.advance();
        }
        assert_eq!(cursor, before);
        cursor.advance();
    }
}

#[test]
fn region_error_message_is_exact() {
    assert_eq!(
        InitError::RegionAllocation.message(),
        "Failed to allocate char device region\0"
    );
}

#[test]
fn device_add_error_message_is_exact() {
    assert_eq!(InitError::DeviceAdd.message(), "Failed to add char dev\0");
}

#[test]
fn messages_end_in_one_nul() {
    for error in [InitError::RegionAllocation, InitError::DeviceAdd] {
        let text = error.message();
        assert!(text.ends_with('\0'));
        assert_eq!(text.matches('\0').count(), 1);
    }
}

#[test]
fn load_statuses_are_zero_and_negative() {
    assert_eq!(LOAD_OK, 0);
    assert_eq!(LOAD_FAILED, -1);
    assert!(LOAD_FAILED < 0);
}

#[test]
fn host_constants_are_exact() {
    assert_eq!(FIRST_MINOR, 0);
    assert_eq!(MINOR_COUNT, 1);
    assert_eq!(DEVICE_NAME, "parrot\0");
    assert_eq!(READ_PAUSE_MS, 50);
}
