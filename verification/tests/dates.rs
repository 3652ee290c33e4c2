use artemis::fcc_date::{deserialize, serialize, Date, DateError, FCC_FORMAT, SQL_FORMAT};
use chrono::Datelike;

#[test]
fn the_flat_files_write_month_day_year() {
    assert_eq!(FCC_FORMAT, "%m/%d/%Y");
    assert_eq!(deserialize("05/17/2023"), Ok(Some(Date { year: 2023, month: 5, day: 17 })));
    assert_eq!(deserialize("12/31/1999"), Ok(Some(Date { year: 1999, month: 12, day: 31 })));
    assert_eq!(deserialize("02/29/2024"), Ok(Some(Date { year: 2024, month: 2, day: 29 })));
}

#[test]
fn an_empty_field_holds_no_date() {
    assert_eq!(deserialize(""), Ok(None));
}

#[test]
fn a_field_that_writes_no_day_of_the_calendar_is_refused() {
    assert_eq!(deserialize("02/30/2024"), Err(DateError::Unreadable));
    assert_eq!(deserialize("13/01/2024"), Err(DateError::Unreadable));
    assert_eq!(deserialize("2024-01-05"), Err(DateError::Unreadable));
    assert_eq!(deserialize("yesterday"), Err(DateError::Unreadable));
    assert_eq!(deserialize(" "), Err(DateError::Unreadable));
    assert_eq!(deserialize("05/17/2023 trailing"), Err(DateError::Unreadable));
}

#[test]
fn the_store_keeps_year_month_day() {
    assert_eq!(SQL_FORMAT, "%Y-%m-%d");
    assert_eq!(
        serialize(&Some(Date { year: 2023, month: 5, day: 17 })),
        Some("2023-05-17".to_string())
    );
    assert_eq!(serialize(&Some(Date { year: 987, month: 1, day: 2 })), Some("0987-01-02".to_string()));
    assert_eq!(serialize(&None), Some(String::new()));
}

#[test]
fn three_numbers_that_are_no_day_have_no_text() {
    assert_eq!(serialize(&Some(Date { year: 2023, month: 2, day: 30 })), None);
    assert_eq!(serialize(&Some(Date { year: 2023, month: 0, day: 1 })), None);
}

#[test]
fn a_date_read_from_a_file_is_written_for_the_store() {
    let date = deserialize("1/2/2003").unwrap();
    assert_eq!(date, Some(Date { year: 2003, month: 1, day: 2 }));
    assert_eq!(serialize(&date), Some("2003-01-02".to_string()));
}

#[test]
fn dates_agree_with_the_calendar_library() {
    for text in ["05/17/2023", "02/29/2023", "7/4/1976", "00/10/2000", "10/10/10", "", "x"] {
        let ours = deserialize(text);
        if text.is_empty() {
            assert_eq!(ours, Ok(None));
            continue;
        }
        match chrono::NaiveDate::parse_from_str(text, "%m/%d/%Y") {
            Ok(d) => {
                let date = Date { year: d.year(), month: d.month(), day: d.day() };
                assert_eq!(ours, Ok(Some(date)));
                assert_eq!(serialize(&ours.unwrap()), Some(d.format("%Y-%m-%d").to_string()));
            }
            Err(_) => assert_eq!(ours, Err(DateError::Unreadable)),
        }
    }
}
