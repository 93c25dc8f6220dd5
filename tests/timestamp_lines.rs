use timetail::timestamp::{timestamp_line, TimeOfDay, LINE_SIZE};

fn assert_pattern(line: &str) {
    let b = line.as_bytes();
    assert_eq!(b.len(), LINE_SIZE);
    for i in [0usize, 1, 3, 4, 6, 7, 9, 10, 11] {
        assert!(b[i].is_ascii_digit(), "position {} of {:?}", i, line);
    }
    assert_eq!(b[2], b':');
    assert_eq!(b[5], b':');
    assert_eq!(b[8], b'.');
    assert_eq!(b[12], b'\n');
}

#[test]
fn midnight_renders_all_zeros() {
    let t = TimeOfDay { hour: 0, minute: 0, second: 0, millisecond: 0 };
    assert_eq!(timestamp_line(t), "00:00:00.000\n");
}

#[test]
fn last_millisecond_of_day() {
    let t = TimeOfDay { hour: 23, minute: 59, second: 59, millisecond: 999 };
    assert_eq!(timestamp_line(t), "23:59:59.999\n");
}

#[test]
fn fields_are_zero_padded() {
    let t = TimeOfDay { hour: 7, minute: 5, second: 3, millisecond: 42 };
    assert_eq!(timestamp_line(t), "07:05:03.042\n");
}

#[test]
fn leap_second_keeps_the_pattern() {
    let t = TimeOfDay::from_clock(23, 59, 59, 1_500_000_000);
    assert_eq!(t, TimeOfDay { hour: 23, minute: 59, second: 60, millisecond: 500 });
    let line = timestamp_line(t);
    assert_eq!(line, "23:59:60.500\n");
    assert_pattern(&line);
}

#[test]
fn clock_reading_truncates_to_milliseconds() {
    let t = TimeOfDay::from_clock(12, 34, 56, 789_999_999);
    assert_eq!(t, TimeOfDay { hour: 12, minute: 34, second: 56, millisecond: 789 });
    assert_eq!(timestamp_line(t), "12:34:56.789\n");
}

#[test]
fn every_rendered_line_matches_the_pattern() {
    for hour in [0u32, 1, 9, 10, 12, 23] {
        for minute in [0u32, 9, 30, 59] {
            for second in [0u32, 1, 59, 60] {
                for millisecond in [0u32, 5, 99, 100, 999] {
                    let t = TimeOfDay { hour, minute, second, millisecond };
                    assert_pattern(&timestamp_line(t));
                }
            }
        }
    }
}

#[test]
fn appended_lines_stay_in_order() {
    let times = [
        TimeOfDay { hour: 23, minute: 59, second: 59, millisecond: 900 },
        TimeOfDay { hour: 0, minute: 0, second: 0, millisecond: 0 },
        TimeOfDay { hour: 0, minute: 0, second: 0, millisecond: 100 },
    ];
    let mut file = String::new();
    for t in times {
        file.push_str(&timestamp_line(t));
    }
    assert_eq!(file, "23:59:59.900\n00:00:00.000\n00:00:00.100\n");
    assert_eq!(file.lines().count(), 3);
    assert_eq!(file.len(), 3 * LINE_SIZE);
}
