use corporate_assistant::contribs::UtcTime;
use corporate_assistant::recording::{database_record, failures_database, generate_file_name, RecordBuffer};

#[test]
fn buffer_fills_up_and_reports_once() {
    let mut b = RecordBuffer::new(5);
    assert!(!b.callback(&[1, 2]));
    assert_eq!(b.pos, 2);
    assert!(b.callback(&[3, 4, 5, 6, 7]));
    assert_eq!(b.record_buffer, vec![1, 2, 3, 4, 5]);
    assert!(b.done);
    assert!(!b.callback(&[9]));
    assert_eq!(b.record_buffer, vec![1, 2, 3, 4, 5]);
}

#[test]
fn buffer_ignores_empty_input() {
    let mut b = RecordBuffer::new(3);
    assert!(!b.callback(&[]));
    assert_eq!(b.pos, 0);
    assert_eq!(b.record_buffer, vec![0, 0, 0]);
}

#[test]
fn file_names_carry_the_day() {
    assert_eq!(
        generate_file_name(0xabcdef012345, UtcTime { secs: 1612325106, nanos: 0 }),
        Some("abcdef012345-2021-02-03.wav".to_string())
    );
    assert_eq!(
        generate_file_name(0xffff_0000_0000_0001, UtcTime { secs: 0, nanos: 0 }),
        Some("000000000001-1970-01-01.wav".to_string())
    );
    assert_eq!(generate_file_name(7, UtcTime { secs: i64::MIN, nanos: 0 }), None);
}

#[test]
fn database_lines() {
    assert_eq!(
        database_record(true, "a.wav", 96044, "open the terminal"),
        "wav_filename,wav_filesize,transcript\na.wav,96044,open the terminal\n"
    );
    assert_eq!(database_record(false, "b.wav", 0, ""), "b.wav,0,\n");
    assert_eq!(failures_database("unrecognized_content"), "unrecognized_content/failures.csv");
}

#[test]
fn database_sizes_in_decimal() {
    assert_eq!(database_record(false, "c.wav", u64::MAX, "x"), "c.wav,18446744073709551615,x\n");
    assert_eq!(database_record(false, "d.wav", 10, "y"), "d.wav,10,y\n");
}
