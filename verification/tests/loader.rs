use artemis::batch::{Batch, BIND_LIMIT};
use artemis::fcc_date::Date;
use artemis::load::{
    load_amateurs, load_comments, load_daily, load_entities, load_headers, load_history,
    load_license_attachments, load_special_condition_codes, load_special_conditions,
    load_special_conditions_free_form, load_weekly, plan_load, row_values, LoadError, LoadPlan,
    TableLoad, DELIMITER,
};
use artemis::normalize::normalize_condition_codes;
use artemis::record::{RecordKind, RowError, SqlValue};

fn text(s: &str) -> SqlValue {
    SqlValue::Text(s.to_string())
}

fn entity_line(id: usize) -> String {
    let mut fields: Vec<String> = (0..30).map(|i| format!("f{}", i)).collect();
    fields[0] = "EN".to_string();
    fields[1] = id.to_string();
    fields[26] = "01/15/2024".to_string();
    fields.join("|")
}

fn entity_file(lines: usize) -> String {
    let mut data = String::new();
    for i in 0..lines {
        data.push_str(&entity_line(i));
        data.push_str("\r\n");
    }
    data
}

fn history_file(lines: usize, bad: Option<usize>) -> String {
    let mut data = String::new();
    for i in 0..lines {
        if Some(i) == bad {
            data.push_str(&format!("HS|{}|file|W1AW|not a date|LIISS\n", i));
        } else {
            data.push_str(&format!("HS|{}|file|W1AW|01/02/2020|LIISS\n", i));
        }
    }
    data
}

fn run(table: &mut Vec<Vec<SqlValue>>, outcome: &Result<LoadPlan, LoadError>) {
    if let Ok(plan) = outcome {
        let mut work = table.clone();
        if plan.clear_first() {
            work.clear();
        }
        for batch in plan.batches() {
            work.extend_from_slice(&plan.rows()[batch.start..batch.end]);
        }
        *table = work;
    }
}

#[test]
fn five_thousand_entities_load_in_five_inserts() {
    let data = entity_file(5000);
    let plan = load_entities(data.as_bytes(), false).unwrap();
    assert_eq!(plan.kind(), RecordKind::Entity);
    assert!(!plan.clear_first());
    assert_eq!(plan.rows().len(), 5000);
    let sizes: Vec<usize> = plan.batches().iter().map(|b| b.len()).collect();
    assert_eq!(sizes, vec![1092, 1092, 1092, 1092, 632]);
    for batch in plan.batches() {
        let bound: usize = plan.rows()[batch.start..batch.end].iter().map(|r| r.len()).sum();
        assert!(bound <= BIND_LIMIT);
        assert_eq!(bound, batch.len() * 30);
    }
    assert_eq!(plan.rows()[4999][1], SqlValue::Integer(4999));
    assert_eq!(plan.rows()[0][26], SqlValue::Date(Date { year: 2024, month: 1, day: 15 }));
    assert_eq!(plan.rows()[7][29], text("f29"));
}

#[test]
fn the_counter_of_rows_rises_with_every_insert() {
    let data = entity_file(2500);
    let plan = load_entities(data.as_bytes(), true).unwrap();
    assert_eq!(plan.batches().len(), 3);
    assert_eq!(plan.rows_done(0), 0);
    assert_eq!(plan.rows_done(1), 1092);
    assert_eq!(plan.rows_done(2), 2184);
    assert_eq!(plan.rows_done(3), 2500);
}

#[test]
fn loading_the_same_weekly_payload_twice_leaves_the_same_table() {
    let data = history_file(700, None);
    let mut table = vec![vec![text("left over")]];
    let first = load_history(data.as_bytes(), true);
    run(&mut table, &first);
    let once = table.clone();
    assert_eq!(once.len(), 700);
    let second = load_history(data.as_bytes(), true);
    assert_eq!(first, second);
    run(&mut table, &second);
    assert_eq!(table, once);
}

#[test]
fn loading_the_same_daily_payload_twice_doubles_its_rows() {
    let data = history_file(3, None);
    let mut table = Vec::new();
    run(&mut table, &load_history(data.as_bytes(), false));
    run(&mut table, &load_history(data.as_bytes(), false));
    assert_eq!(table.len(), 6);
    assert_eq!(table[0], table[3]);
}

#[test]
fn a_malformed_line_in_the_middle_leaves_the_table_untouched() {
    let data = history_file(1000, Some(500));
    let before = vec![vec![text("row that was there")], vec![text("another")]];
    let mut table = before.clone();
    let outcome = load_history(data.as_bytes(), false);
    assert_eq!(
        outcome,
        Err(LoadError::Row { row: 500, error: RowError::Field { column: 4 } })
    );
    run(&mut table, &outcome);
    assert_eq!(table, before);
    let outcome = load_history(data.as_bytes(), true);
    assert!(outcome.is_err());
    run(&mut table, &outcome);
    assert_eq!(table, before);
}

#[test]
fn the_first_malformed_line_is_the_one_reported() {
    let data = "HS|1|f|W1AW|01/02/2020|A\nHS|2|f|W1AW|13/13/2020|A\nHS|3|f|W1AW|bad|A\n";
    assert_eq!(
        load_history(data.as_bytes(), false),
        Err(LoadError::Row { row: 1, error: RowError::Field { column: 4 } })
    );
}

#[test]
fn a_line_of_another_length_makes_the_file_unreadable() {
    let data = "HS|1|f|W1AW|01/02/2020|A\nHS|2|f|W1AW|01/02/2020\n";
    assert_eq!(load_history(data.as_bytes(), false), Err(LoadError::Unreadable));
    let data = b"HS|1|f|W1AW|01/02/2020|\xff\n";
    assert_eq!(load_history(data, false), Err(LoadError::Unreadable));
}

#[test]
fn a_file_of_the_wrong_width_is_malformed_at_its_first_line() {
    let data = "HS|1|f|W1AW|01/02/2020\nHS|2|f|W1AW|01/02/2020\n";
    assert_eq!(
        load_history(data.as_bytes(), false),
        Err(LoadError::Row { row: 0, error: RowError::ColumnCount { found: 5 } })
    );
    let data = "HS|1|f|W1AW|01/02/2020|A|extra\n";
    assert_eq!(
        load_history(data.as_bytes(), false),
        Err(LoadError::Row { row: 0, error: RowError::ColumnCount { found: 7 } })
    );
}

#[test]
fn an_empty_file_gives_an_empty_plan() {
    let plan = load_headers(b"", true).unwrap();
    assert!(plan.clear_first());
    assert!(plan.rows().is_empty());
    assert!(plan.batches().is_empty());
    assert_eq!(plan.rows_done(0), 0);
}

#[test]
fn lines_end_in_line_feed_with_or_without_carriage_return() {
    let plan = load_history(b"HS|1|f|A||X\r\nHS|2|f|B||Y\nHS|3|f|C||Z", false).unwrap();
    assert_eq!(plan.rows().len(), 3);
    assert_eq!(
        plan.rows()[2],
        vec![text("HS"), text("3"), text("f"), text("C"), SqlValue::Null, text("Z")]
    );
    assert_eq!(plan.batches(), &vec![Batch { start: 0, end: 3 }]);
}

#[test]
fn quotes_are_taken_literally_in_the_dumps() {
    let plan = load_history(b"HS|1|\"f|A||\"X\n", false).unwrap();
    assert_eq!(plan.rows()[0][2], text("\"f"));
    assert_eq!(plan.rows()[0][5], text("\"X"));
}

#[test]
fn the_reference_table_joins_its_five_description_fields() {
    let data = "1|AA|\"The licensee|shall\"|comply|with|the|rules|P\r\n2|BB|a|b|c|d|e|T\r\n";
    let plan = load_special_condition_codes(data.as_bytes(), true).unwrap();
    assert_eq!(plan.kind(), RecordKind::SpecialConditionCode);
    assert_eq!(
        plan.rows()[0],
        vec![text("1"), text("AA"), text("The licensee|shall comply with the rules"), text("P")]
    );
    assert_eq!(plan.rows()[1], vec![text("2"), text("BB"), text("a b c d e"), text("T")]);
    assert_eq!(
        load_special_condition_codes(b"1|AA|a|b|c|d|e\n", true),
        Err(LoadError::Row { row: 0, error: RowError::ColumnCount { found: 7 } })
    );
}

#[test]
fn every_record_type_loads_its_own_table() {
    let line = |n: usize, numbers: &[usize]| -> String {
        let mut fields: Vec<String> = vec![String::new(); n];
        for i in numbers {
            fields[*i] = "12".to_string();
        }
        let mut l = fields.join("|");
        l.push('\n');
        l
    };
    let cases: Vec<(RecordKind, usize, Result<LoadPlan, LoadError>)> = vec![
        (RecordKind::Amateur, 18, load_amateurs(line(18, &[1]).as_bytes(), true)),
        (RecordKind::Comment, 8, load_comments(line(8, &[0]).as_bytes(), true)),
        (RecordKind::Entity, 30, load_entities(line(30, &[1]).as_bytes(), true)),
        (RecordKind::Header, 59, load_headers(line(59, &[1]).as_bytes(), true)),
        (RecordKind::History, 6, load_history(line(6, &[0]).as_bytes(), true)),
        (
            RecordKind::LicenseAttachment,
            8,
            load_license_attachments(line(8, &[1]).as_bytes(), true),
        ),
        (
            RecordKind::SpecialCondition,
            9,
            load_special_conditions(line(9, &[1, 6]).as_bytes(), true),
        ),
        (
            RecordKind::SpecialConditionFreeForm,
            11,
            load_special_conditions_free_form(line(11, &[1, 7]).as_bytes(), true),
        ),
    ];
    for (kind, width, outcome) in cases {
        let plan = outcome.unwrap();
        assert_eq!(plan.kind(), kind);
        assert_eq!(plan.rows().len(), 1);
        assert_eq!(plan.rows()[0].len(), width);
        assert_eq!(kind.column_count(), width);
        assert_eq!(kind.field_count(), width);
    }
    assert_eq!(
        load_entities(line(30, &[]).as_bytes(), true),
        Err(LoadError::Row { row: 0, error: RowError::Field { column: 1 } })
    );
}

#[test]
fn a_plan_is_made_from_lines_already_read() {
    let lines = vec![
        vec!["HS", "1", "f", "W1AW", "", "A"],
        vec!["HS", "2", "f", "W1AW", "02/03/2004", "B"],
    ];
    let lines: Vec<Vec<String>> =
        lines.iter().map(|l| l.iter().map(|f| f.to_string()).collect()).collect();
    let plan = plan_load(RecordKind::History, &lines, true).unwrap();
    assert_eq!(plan.rows().len(), 2);
    assert_eq!(plan.rows()[1][4], SqlValue::Date(Date { year: 2004, month: 2, day: 3 }));
    assert_eq!(
        row_values(RecordKind::History, &lines[0]),
        Ok(vec![text("HS"), text("1"), text("f"), text("W1AW"), SqlValue::Null, text("A")])
    );
    assert_eq!(
        plan_load(RecordKind::Entity, &lines, true),
        Err(LoadError::Row { row: 0, error: RowError::ColumnCount { found: 6 } })
    );
}

#[test]
fn a_weekly_payload_reloads_nine_tables_and_a_daily_one_appends_to_eight() {
    let weekly = load_weekly();
    let daily = load_daily();
    let kinds = [
        RecordKind::Amateur,
        RecordKind::Comment,
        RecordKind::Entity,
        RecordKind::Header,
        RecordKind::History,
        RecordKind::LicenseAttachment,
        RecordKind::SpecialCondition,
        RecordKind::SpecialConditionFreeForm,
    ];
    assert_eq!(weekly.len(), 9);
    assert_eq!(daily.len(), 8);
    for i in 0..8 {
        assert_eq!(weekly[i], TableLoad { kind: kinds[i], clear_first: true });
        assert_eq!(daily[i], TableLoad { kind: kinds[i], clear_first: false });
    }
    assert_eq!(weekly[8], TableLoad { kind: RecordKind::SpecialConditionCode, clear_first: true });
    assert_eq!(DELIMITER, b'|');
}

#[test]
fn a_condition_broken_over_two_lines_loads_as_one_row_with_all_its_text() {
    let file = "7|AM|The licensee\nshall|comply|with|Part\r\n97|of the rules|R\r\n8|AM|a|b|c|d|e|P\r\n";
    let normal = normalize_condition_codes(file);
    assert_eq!(normal, "7|AM|The licensee shall|comply|with|Part 97|of the rules|R\r\n8|AM|a|b|c|d|e|P\r\n");
    let plan = load_special_condition_codes(normal.as_bytes(), true).unwrap();
    assert_eq!(plan.rows().len(), 2);
    assert_eq!(
        plan.rows()[0],
        vec![text("7"), text("AM"), text("The licensee shall comply with Part 97 of the rules"), text("R")]
    );
    assert!(load_special_condition_codes(file.as_bytes(), true).is_err());
}
