//! The record types of the flat files: which table each one fills, how its
//! fields are read, and what one line binds.

use crate::batch::BIND_LIMIT;
use crate::fcc_date::{deserialize, field_date, Date};
use crate::text::{field_number, parse_i32, parse_u32};
use vstd::prelude::*;

verus! {

/// One value bound to a statement.
#[derive(Clone, Debug, PartialEq, Eq)]
pub enum SqlValue {
    Null,
    Integer(i64),
    Text(String),
    Date(Date),
}

/// What a bound value is: the model of `SqlValue`.
pub enum SqlCell {
    Null,
    Integer(int),
    Text(Seq<char>),
    Date(Date),
}

impl View for SqlValue {
    type V = SqlCell;

    open spec fn view(&self) -> SqlCell {
        match self {
            SqlValue::Null => SqlCell::Null,
            SqlValue::Integer(n) => SqlCell::Integer(*n as int),
            SqlValue::Text(t) => SqlCell::Text(t@),
            SqlValue::Date(d) => SqlCell::Date(*d),
        }
    }
}

/// The texts of the fields of one line.
pub open spec fn texts_of(fields: Seq<String>) -> Seq<Seq<char>> {
    Seq::new(fields.len(), |i: int| fields[i]@)
}

/// The values of one row.
pub open spec fn cells_of(row: Seq<SqlValue>) -> Seq<SqlCell> {
    Seq::new(row.len(), |i: int| row[i]@)
}

/// How a field is read.
#[derive(Clone, Copy, Debug, PartialEq, Eq, Structural)]
pub enum Column {
    /// Kept as it stands.
    Text,
    /// An unsigned 32-bit number.
    Unsigned,
    /// A signed 32-bit number, or nothing where the field is empty.
    OptionalInt,
    /// A date written month/day/year, or nothing where the field is empty.
    OptionalDate,
}

/// The value that a field holds when read as `column`; `None` where the
/// field cannot be read so.
pub open spec fn cell(column: Column, text: Seq<char>) -> Option<SqlCell> {
    match column {
        Column::Text => Some(SqlCell::Text(text)),
        Column::Unsigned => match field_number(text, false, 0, u32::MAX as int) {
            Some(n) => Some(SqlCell::Integer(n)),
            None => None,
        },
        Column::OptionalInt => if text.len() == 0 {
            Some(SqlCell::Null)
        } else {
            match field_number(text, true, i32::MIN as int, i32::MAX as int) {
                Some(n) => Some(SqlCell::Integer(n)),
                None => None,
            }
        },
        Column::OptionalDate => match field_date(text) {
            Ok(Some(d)) => Some(SqlCell::Date(d)),
            Ok(None) => Some(SqlCell::Null),
            Err(_) => None,
        },
    }
}

/// The value that a text binds.
pub open spec fn text_cell(text: String) -> SqlCell {
    SqlCell::Text(text@)
}

/// The value that a number binds.
pub open spec fn unsigned_cell(n: u32) -> SqlCell {
    SqlCell::Integer(n as int)
}

/// The value that an optional number binds.
pub open spec fn int_cell(n: Option<i32>) -> SqlCell {
    match n {
        Some(v) => SqlCell::Integer(v as int),
        None => SqlCell::Null,
    }
}

/// The value that an optional date binds.
pub open spec fn date_cell(d: Option<Date>) -> SqlCell {
    match d {
        Some(v) => SqlCell::Date(v),
        None => SqlCell::Null,
    }
}

/// The record types whose rows the loader writes.
#[derive(Clone, Copy, Debug, PartialEq, Eq, Hash, Structural)]
pub enum RecordKind {
    Amateur,
    Comment,
    Entity,
    Header,
    History,
    LicenseAttachment,
    SpecialCondition,
    SpecialConditionFreeForm,
    /// The reference table of special condition codes, which is published
    /// apart from the dumps and has a layout of its own.
    SpecialConditionCode,
}

impl RecordKind {
    /// How many fields a line of the record type has.
    pub open spec fn fields(self) -> int {
        match self {
            RecordKind::Amateur => 18,
            RecordKind::Comment => 8,
            RecordKind::Entity => 30,
            RecordKind::Header => 59,
            RecordKind::History => 6,
            RecordKind::LicenseAttachment => 8,
            RecordKind::SpecialCondition => 9,
            RecordKind::SpecialConditionFreeForm => 11,
            RecordKind::SpecialConditionCode => 8,
        }
    }

    /// How many values a row of the record type binds.
    pub open spec fn columns(self) -> int {
        match self {
            RecordKind::Amateur => 18,
            RecordKind::Comment => 8,
            RecordKind::Entity => 30,
            RecordKind::Header => 59,
            RecordKind::History => 6,
            RecordKind::LicenseAttachment => 8,
            RecordKind::SpecialCondition => 9,
            RecordKind::SpecialConditionFreeForm => 11,
            RecordKind::SpecialConditionCode => 4,
        }
    }

    /// How the field of index `j` is read.
    pub open spec fn column(self, j: int) -> Column {
        match self {
            RecordKind::Amateur => if j == 1 {
                Column::Unsigned
            } else {
                Column::Text
            },
            RecordKind::Comment => if j == 4 || j == 7 {
                Column::OptionalDate
            } else {
                Column::Text
            },
            RecordKind::Entity => if j == 1 {
                Column::Unsigned
            } else if j == 26 {
                Column::OptionalDate
            } else {
                Column::Text
            },
            RecordKind::Header => if j == 1 {
                Column::Unsigned
            } else if j == 7 || j == 8 || j == 9 || j == 42 || j == 43 {
                Column::OptionalDate
            } else if j == 44 {
                Column::OptionalInt
            } else {
                Column::Text
            },
            RecordKind::History => if j == 4 {
                Column::OptionalDate
            } else {
                Column::Text
            },
            RecordKind::LicenseAttachment => if j == 1 {
                Column::Unsigned
            } else if j == 5 {
                Column::OptionalDate
            } else {
                Column::Text
            },
            RecordKind::SpecialCondition => if j == 1 {
                Column::Unsigned
            } else if j == 6 {
                Column::OptionalInt
            } else if j == 8 {
                Column::OptionalDate
            } else {
                Column::Text
            },
            RecordKind::SpecialConditionFreeForm => if j == 1 {
                Column::Unsigned
            } else if j == 7 {
                Column::OptionalInt
            } else if j == 10 {
                Column::OptionalDate
            } else {
                Column::Text
            },
            RecordKind::SpecialConditionCode => Column::Text,
        }
    }

    /// The name of the table that the record type fills.
    pub open spec fn table_name(self) -> Seq<char> {
        match self {
            RecordKind::Amateur => "amateurs"@,
            RecordKind::Comment => "comments"@,
            RecordKind::Entity => "entities"@,
            RecordKind::Header => "headers"@,
            RecordKind::History => "history"@,
            RecordKind::LicenseAttachment => "license_attachments"@,
            RecordKind::SpecialCondition => "special_conditions"@,
            RecordKind::SpecialConditionFreeForm => "special_conditions_free_form"@,
            RecordKind::SpecialConditionCode => "special_condition_codes"@,
        }
    }

    /// The name of the flat file that holds the record type.
    pub open spec fn file_name_text(self) -> Seq<char> {
        match self {
            RecordKind::Amateur => "AM.dat"@,
            RecordKind::Comment => "CO.dat"@,
            RecordKind::Entity => "EN.dat"@,
            RecordKind::Header => "HD.dat"@,
            RecordKind::History => "HS.dat"@,
            RecordKind::LicenseAttachment => "LA.dat"@,
            RecordKind::SpecialCondition => "SC.dat"@,
            RecordKind::SpecialConditionFreeForm => "SF.dat"@,
            RecordKind::SpecialConditionCode => "special_condition_codes.txt"@,
        }
    }

    /// The statement that empties the record type's table.
    pub open spec fn delete_text(self) -> Seq<char> {
        match self {
            RecordKind::Amateur => "DELETE FROM amateurs"@,
            RecordKind::Comment => "DELETE FROM comments"@,
            RecordKind::Entity => "DELETE FROM entities"@,
            RecordKind::Header => "DELETE FROM headers"@,
            RecordKind::History => "DELETE FROM history"@,
            RecordKind::LicenseAttachment => "DELETE FROM license_attachments"@,
            RecordKind::SpecialCondition => "DELETE FROM special_conditions"@,
            RecordKind::SpecialConditionFreeForm => "DELETE FROM special_conditions_free_form"@,
            RecordKind::SpecialConditionCode => "DELETE FROM special_condition_codes"@,
        }
    }

    /// The head of the statement that inserts rows of the record type: the
    /// table and its columns, in the order in which a row binds them.
    pub open spec fn insert_text(self) -> Seq<char> {
        match self {
            RecordKind::Amateur => "INSERT INTO amateurs (record_type, unique_system_identifier, uls_file_number, ebf_number, call_sign, operator_class, group_code, region_code, trustee_call_sign, trustee_indicator, physician_certification, ve_signature, systematic_call_sign_change, vanity_call_sign_change, vanity_relationship, previous_call_sign, previous_operator_class, trustee_name) "@,
            RecordKind::Comment => "INSERT INTO comments (record_type, unique_system_identifier, uls_file_number, call_sign, comment_date, description, status_code, status_date) "@,
            RecordKind::Entity => "INSERT INTO entities (record_type, unique_system_identifier, uls_file_number, ebf_number, call_sign, entity_type, licensee_id, entity_name, first_name, mi, last_name, suffix, phone, fax, email, street_address, city, state, zip_code, po_box, attention_line, sgin, frn, applicant_type_code, applicant_type_code_other, status_code, status_date, three_point_seven_ghz_license_type, linked_unique_system_identifier, linked_callsign) "@,
            RecordKind::Header => "INSERT INTO headers (record_type, unique_system_identifier, uls_file_number, ebf_number, call_sign, license_status, radio_service_code, grant_date, expired_date, cancellation_date, eligibility_rule_number, reserved, alien, alien_government, alien_corporation, alien_officers, alien_control, revoked, convicted, adjudged, reserved_2, common_carrier, non_common_carrier, private_comm, fixed, mobile, radiolocation, sattelite, developmental_or_sta, interconnected_service, certifier_first_name, certifier_middle_initial, certifier_last_name, certifier_suffix, certifier_title, female, black_or_african_american, native_american, hawaiian, asian, white, hispanic, effective_date, last_action_date, auction_id, broadcast_services_regulatory_status, band_manager_regulatory_status, broadcast_services_type_of_radio_service, alien_ruling, licensee_name_change, whitespace_indicator, operation_requirement_choice, operation_requirement_answer, discontinuation_of_service, regulatory_compliance, eligibility_certification_900_mhz, transition_plan_certification_900_mhz, return_spectrum_certification_900_mhz, payment_certification_900_mhz) "@,
            RecordKind::History => "INSERT INTO history (record_type, unique_system_identifier, uls_file_number, call_sign, log_date, code) "@,
            RecordKind::LicenseAttachment => "INSERT INTO license_attachments (record_type, unique_system_identifier, call_sign, attachment_code, attachment_description, attachment_date, attachment_file_name, action_performed) "@,
            RecordKind::SpecialCondition => "INSERT INTO special_conditions (record_type, unique_system_identifier, uls_file_number, ebf_number, call_sign, special_condition_type, special_condition_code, status_code, status_date) "@,
            RecordKind::SpecialConditionFreeForm => "INSERT INTO special_conditions_free_form (record_type, unique_system_identifier, uls_file_number, ebf_number, call_sign, license_free_form_type, unique_license_free_form_identifier, sequence_number, license_free_form_condition, status_code, status_date) "@,
            RecordKind::SpecialConditionCode => "INSERT INTO special_condition_codes (code, service, description, unknown) "@,
        }
    }

    /// How many fields a line of the record type has.
    pub fn field_count(&self) -> (n: usize)
        ensures
            n == self.fields(),
    {
        match self {
            RecordKind::Amateur => 18,
            RecordKind::Comment => 8,
            RecordKind::Entity => 30,
            RecordKind::Header => 59,
            RecordKind::History => 6,
            RecordKind::LicenseAttachment => 8,
            RecordKind::SpecialCondition => 9,
            RecordKind::SpecialConditionFreeForm => 11,
            RecordKind::SpecialConditionCode => 8,
        }
    }

    /// How many values a row of the record type binds.
    pub fn column_count(&self) -> (n: usize)
        ensures
            n == self.columns(),
            0 < n <= BIND_LIMIT,
    {
        match self {
            RecordKind::Amateur => 18,
            RecordKind::Comment => 8,
            RecordKind::Entity => 30,
            RecordKind::Header => 59,
            RecordKind::History => 6,
            RecordKind::LicenseAttachment => 8,
            RecordKind::SpecialCondition => 9,
            RecordKind::SpecialConditionFreeForm => 11,
            RecordKind::SpecialConditionCode => 4,
        }
    }

    /// The name of the table that the record type fills.
    pub fn table(&self) -> (name: &'static str)
        ensures
            name@ == self.table_name(),
    {
        match self {
            RecordKind::Amateur => "amateurs",
            RecordKind::Comment => "comments",
            RecordKind::Entity => "entities",
            RecordKind::Header => "headers",
            RecordKind::History => "history",
            RecordKind::LicenseAttachment => "license_attachments",
            RecordKind::SpecialCondition => "special_conditions",
            RecordKind::SpecialConditionFreeForm => "special_conditions_free_form",
            RecordKind::SpecialConditionCode => "special_condition_codes",
        }
    }

    /// The name of the flat file that holds the record type.
    pub fn file_name(&self) -> (name: &'static str)
        ensures
            name@ == self.file_name_text(),
    {
        match self {
            RecordKind::Amateur => "AM.dat",
            RecordKind::Comment => "CO.dat",
            RecordKind::Entity => "EN.dat",
            RecordKind::Header => "HD.dat",
            RecordKind::History => "HS.dat",
            RecordKind::LicenseAttachment => "LA.dat",
            RecordKind::SpecialCondition => "SC.dat",
            RecordKind::SpecialConditionFreeForm => "SF.dat",
            RecordKind::SpecialConditionCode => "special_condition_codes.txt",
        }
    }

    /// The statement that empties the record type's table.
    pub fn delete_sql(&self) -> (sql: &'static str)
        ensures
            sql@ == self.delete_text(),
    {
        match self {
            RecordKind::Amateur => "DELETE FROM amateurs",
            RecordKind::Comment => "DELETE FROM comments",
            RecordKind::Entity => "DELETE FROM entities",
            RecordKind::Header => "DELETE FROM headers",
            RecordKind::History => "DELETE FROM history",
            RecordKind::LicenseAttachment => "DELETE FROM license_attachments",
            RecordKind::SpecialCondition => "DELETE FROM special_conditions",
            RecordKind::SpecialConditionFreeForm => "DELETE FROM special_conditions_free_form",
            RecordKind::SpecialConditionCode => "DELETE FROM special_condition_codes",
        }
    }

    /// The head of the statement that inserts rows of the record type; the
    /// rows' values follow it.
    pub fn insert_sql(&self) -> (sql: &'static str)
        ensures
            sql@ == self.insert_text(),
    {
        match self {
            RecordKind::Amateur => "INSERT INTO amateurs (record_type, unique_system_identifier, uls_file_number, ebf_number, call_sign, operator_class, group_code, region_code, trustee_call_sign, trustee_indicator, physician_certification, ve_signature, systematic_call_sign_change, vanity_call_sign_change, vanity_relationship, previous_call_sign, previous_operator_class, trustee_name) ",
            RecordKind::Comment => "INSERT INTO comments (record_type, unique_system_identifier, uls_file_number, call_sign, comment_date, description, status_code, status_date) ",
            RecordKind::Entity => "INSERT INTO entities (record_type, unique_system_identifier, uls_file_number, ebf_number, call_sign, entity_type, licensee_id, entity_name, first_name, mi, last_name, suffix, phone, fax, email, street_address, city, state, zip_code, po_box, attention_line, sgin, frn, applicant_type_code, applicant_type_code_other, status_code, status_date, three_point_seven_ghz_license_type, linked_unique_system_identifier, linked_callsign) ",
            RecordKind::Header => "INSERT INTO headers (record_type, unique_system_identifier, uls_file_number, ebf_number, call_sign, license_status, radio_service_code, grant_date, expired_date, cancellation_date, eligibility_rule_number, reserved, alien, alien_government, alien_corporation, alien_officers, alien_control, revoked, convicted, adjudged, reserved_2, common_carrier, non_common_carrier, private_comm, fixed, mobile, radiolocation, sattelite, developmental_or_sta, interconnected_service, certifier_first_name, certifier_middle_initial, certifier_last_name, certifier_suffix, certifier_title, female, black_or_african_american, native_american, hawaiian, asian, white, hispanic, effective_date, last_action_date, auction_id, broadcast_services_regulatory_status, band_manager_regulatory_status, broadcast_services_type_of_radio_service, alien_ruling, licensee_name_change, whitespace_indicator, operation_requirement_choice, operation_requirement_answer, discontinuation_of_service, regulatory_compliance, eligibility_certification_900_mhz, transition_plan_certification_900_mhz, return_spectrum_certification_900_mhz, payment_certification_900_mhz) ",
            RecordKind::History => "INSERT INTO history (record_type, unique_system_identifier, uls_file_number, call_sign, log_date, code) ",
            RecordKind::LicenseAttachment => "INSERT INTO license_attachments (record_type, unique_system_identifier, call_sign, attachment_code, attachment_description, attachment_date, attachment_file_name, action_performed) ",
            RecordKind::SpecialCondition => "INSERT INTO special_conditions (record_type, unique_system_identifier, uls_file_number, ebf_number, call_sign, special_condition_type, special_condition_code, status_code, status_date) ",
            RecordKind::SpecialConditionFreeForm => "INSERT INTO special_conditions_free_form (record_type, unique_system_identifier, uls_file_number, ebf_number, call_sign, license_free_form_type, unique_license_free_form_identifier, sequence_number, license_free_form_condition, status_code, status_date) ",
            RecordKind::SpecialConditionCode => "INSERT INTO special_condition_codes (code, service, description, unknown) ",
        }
    }
}

/// Why a line does not map to a row.
#[derive(Clone, Copy, Debug, PartialEq, Eq, Structural)]
pub enum RowError {
    /// The line has `found` fields, not as many as its record type has.
    ColumnCount { found: usize },
    /// The field of index `column` holds no value of its column's kind, and
    /// every field before it does.
    Field { column: usize },
}

/// Reads a field that is kept as text.
pub fn read_text(fields: &Vec<String>, column: usize) -> (r: String)
    requires
        column < fields.len(),
    ensures
        r@ == fields[column as int]@,
        cell(Column::Text, fields[column as int]@) == Some(text_cell(r)),
{
    fields[column].clone()
}

/// Reads a field that holds an unsigned number.
pub fn read_unsigned(fields: &Vec<String>, column: usize) -> (r: Result<u32, RowError>)
    requires
        column < fields.len(),
    ensures
        match r {
            Ok(n) => cell(Column::Unsigned, fields[column as int]@) == Some(unsigned_cell(n)),
            Err(e) => cell(Column::Unsigned, fields[column as int]@) is None && e
                == (RowError::Field { column }),
        },
{
    match parse_u32(fields[column].as_str()) {
        Some(n) => Ok(n),
        None => Err(RowError::Field { column }),
    }
}

/// Reads a field that holds a signed number or nothing.
pub fn read_optional_int(fields: &Vec<String>, column: usize) -> (r: Result<Option<i32>, RowError>)
    requires
        column < fields.len(),
    ensures
        match r {
            Ok(n) => cell(Column::OptionalInt, fields[column as int]@) == Some(int_cell(n)),
            Err(e) => cell(Column::OptionalInt, fields[column as int]@) is None && e
                == (RowError::Field { column }),
        },
{
    let text = fields[column].as_str();
    if text.is_empty() {
        Ok(None)
    } else {
        match parse_i32(text) {
            Some(n) => Ok(Some(n)),
            None => Err(RowError::Field { column }),
        }
    }
}

/// Reads a field that holds a date or nothing.
pub fn read_optional_date(fields: &Vec<String>, column: usize) -> (r: Result<Option<Date>, RowError>)
    requires
        column < fields.len(),
    ensures
        match r {
            Ok(d) => cell(Column::OptionalDate, fields[column as int]@) == Some(date_cell(d)),
            Err(e) => cell(Column::OptionalDate, fields[column as int]@) is None && e
                == (RowError::Field { column }),
        },
{
    match deserialize(fields[column].as_str()) {
        Ok(d) => Ok(d),
        Err(_) => Err(RowError::Field { column }),
    }
}

/// The values that a line of the reference table of special condition codes
/// binds: the first two fields, the five fields after them joined by single
/// spaces, and the last field.
pub open spec fn code_cells(texts: Seq<Seq<char>>) -> Seq<SqlCell> {
    seq![
        SqlCell::Text(texts[0]),
        SqlCell::Text(texts[1]),
        SqlCell::Text(
            texts[2] + seq![' '] + texts[3] + seq![' '] + texts[4] + seq![' '] + texts[5] + seq![' ']
                + texts[6],
        ),
        SqlCell::Text(texts[7]),
    ]
}

impl RecordKind {
    /// The field of index `j` holds no value of its column's kind.
    pub open spec fn unreadable(self, texts: Seq<Seq<char>>, j: int) -> bool {
        cell(self.column(j), texts[j]) is None
    }

    /// The field of index `j` is the first that holds no value of its
    /// column's kind.
    pub open spec fn first_unreadable(self, texts: Seq<Seq<char>>, j: int) -> bool {
        &&& 0 <= j < texts.len()
        &&& self.unreadable(texts, j)
        &&& forall|i: int| 0 <= i < j ==> !self.unreadable(texts, i)
    }

    /// The values that a line binds when every field of it can be read.
    pub open spec fn cells(self, texts: Seq<Seq<char>>) -> Seq<SqlCell> {
        match self {
            RecordKind::SpecialConditionCode => code_cells(texts),
            _ => Seq::new(texts.len(), |j: int| cell(self.column(j), texts[j])->0),
        }
    }

    /// What a line maps to: the values that its row binds, or the reason why
    /// it is malformed. A line with the wrong number of fields is malformed,
    /// and so is one with a field that cannot be read; the first such field
    /// is named.
    pub open spec fn row(self, texts: Seq<Seq<char>>) -> Result<Seq<SqlCell>, RowError> {
        if texts.len() != self.fields() {
            Err(RowError::ColumnCount { found: texts.len() as usize })
        } else if exists|j: int| self.first_unreadable(texts, j) {
            Err(RowError::Field { column: (choose|j: int| self.first_unreadable(texts, j)) as usize })
        } else {
            Ok(self.cells(texts))
        }
    }
}

/// A line whose fields can all be read maps to the values read.
pub proof fn lemma_row_maps(kind: RecordKind, texts: Seq<Seq<char>>, cells: Seq<SqlCell>)
    requires
        kind != RecordKind::SpecialConditionCode,
        texts.len() == kind.fields(),
        cells.len() == texts.len(),
        forall|j: int| 0 <= j < texts.len() ==> cell(kind.column(j), texts[j]) == Some(cells[j]),
    ensures
        kind.row(texts) == Ok::<Seq<SqlCell>, RowError>(cells),
{
    assert(kind.cells(texts) =~= cells);
}

/// A line of the right length whose first unreadable field is `column` is
/// malformed at that field.
pub proof fn lemma_row_fails(kind: RecordKind, texts: Seq<Seq<char>>, column: usize)
    requires
        texts.len() == kind.fields(),
        kind.first_unreadable(texts, column as int),
    ensures
        kind.row(texts) == Err::<Seq<SqlCell>, RowError>(RowError::Field { column }),
{
    let j = choose|j: int| kind.first_unreadable(texts, j);
    assert(kind.first_unreadable(texts, j));
    if j < column {
        assert(!kind.unreadable(texts, j));
    } else if column < j {
        assert(!kind.unreadable(texts, column as int));
    }
}

/// The bound value of a text.
pub fn text_value(text: &String) -> (v: SqlValue)
    ensures
        v@ == text_cell(*text),
{
    SqlValue::Text(text.clone())
}

/// The bound value of a number.
pub fn unsigned_value(n: u32) -> (v: SqlValue)
    ensures
        v@ == unsigned_cell(n),
{
    SqlValue::Integer(n as i64)
}

/// The bound value of an optional number.
pub fn int_value(n: Option<i32>) -> (v: SqlValue)
    ensures
        v@ == int_cell(n),
{
    match n {
        Some(x) => SqlValue::Integer(x as i64),
        None => SqlValue::Null,
    }
}

/// The bound value of an optional date.
pub fn date_value(d: Option<Date>) -> (v: SqlValue)
    ensures
        v@ == date_cell(d),
{
    match d {
        Some(x) => SqlValue::Date(x),
        None => SqlValue::Null,
    }
}

} // verus!
