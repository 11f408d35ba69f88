use alglobo::entity_logger::{leapyear, month_length, seconds_to_datetime, Date, DateTime};

fn fields(ts: i64) -> (i32, i32, i32, i32, i32, i32) {
    let mut tm = DateTime::new();
    seconds_to_datetime(ts, &mut tm);
    (tm.year, tm.month, tm.day, tm.hour, tm.min, tm.sec)
}

#[test]
fn epoch_seconds_become_date_and_time() {
    assert_eq!(fields(0), (1970, 1, 1, 0, 0, 0));
    assert_eq!(fields(86399), (1970, 1, 1, 23, 59, 59));
    assert_eq!(fields(68256000), (1972, 3, 1, 0, 0, 0));
    assert_eq!(fields(951782400), (2000, 2, 29, 0, 0, 0));
    assert_eq!(fields(1655000000), (2022, 6, 12, 2, 13, 20));
    assert_eq!(fields(1672531199), (2022, 12, 31, 23, 59, 59));
    assert_eq!(fields(1672531200), (2023, 1, 1, 0, 0, 0));
    assert_eq!(fields(1709251199), (2024, 2, 29, 23, 59, 59));
    assert_eq!(fields(4107542400), (2100, 3, 1, 0, 0, 0));
    assert_eq!(fields(253402300799), (9999, 12, 31, 23, 59, 59));
}

#[test]
fn leap_years_and_months() {
    assert!(leapyear(2000));
    assert!(leapyear(2024));
    assert!(!leapyear(1900));
    assert!(!leapyear(2100));
    assert!(!leapyear(2023));
    assert_eq!(month_length(true, 2), 29);
    assert_eq!(month_length(false, 2), 28);
    let lengths: Vec<i64> = (1..=12).map(|month| month_length(false, month)).collect();
    assert_eq!(lengths, vec![31, 28, 31, 30, 31, 30, 31, 31, 30, 31, 30, 31]);
}

#[test]
fn date_and_time_as_text() {
    let tm = DateTime {
        sec: 5,
        min: 4,
        hour: 15,
        day: 3,
        month: 2,
        year: 2022,
    };
    assert_eq!(tm.to_string(), "2022-02-03 12:04:05");
    assert_eq!(DateTime::new().to_string(), "0000-00-00 -3:00:00");
    assert_eq!(DateTime::default().to_string(), DateTime::new().to_string());
    let mut tm = DateTime::new();
    seconds_to_datetime(1655000000, &mut tm);
    assert_eq!(tm.to_string(), "2022-06-12 -1:13:20");
    let wide = DateTime {
        sec: 100,
        min: -1,
        hour: 3,
        day: 0,
        month: 123,
        year: 12345,
    };
    assert_eq!(wide.to_string(), "12345-123-00 00:-1:100");
    assert_eq!(
        wide.to_string(),
        format!("{:04}-{:02}-{:02} {:02}:{:02}:{:02}", 12345, 123, 0, 0, -1, 100)
    );
    let date = Date {
        day: 9,
        month: 11,
        year: 989,
    };
    assert_eq!(date.to_string(), "0989-11-09 UTC");
}
