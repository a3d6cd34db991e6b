use libpq::Attribute;
use libpq::Error;
use libpq::ErrorField;
use libpq::Format;
use libpq::Status;

#[test]
fn status_codes_are_the_native_ones() {
    assert_eq!(Status::EmptyQuery.code(), 0);
    assert_eq!(Status::CommandOk.code(), 1);
    assert_eq!(Status::TuplesOk.code(), 2);
    assert_eq!(Status::CopyOut.code(), 3);
    assert_eq!(Status::CopyIn.code(), 4);
    assert_eq!(Status::BadResponse.code(), 5);
    assert_eq!(Status::NonFatalError.code(), 6);
    assert_eq!(Status::FatalError.code(), 7);
    assert_eq!(Status::CopyBoth.code(), 8);
    assert_eq!(Status::SingleTuple.code(), 9);
    assert_eq!(Status::PipelineSync.code(), 10);
    assert_eq!(Status::PipelineAborted.code(), 11);
    assert_eq!(Status::TuplesChunk.code(), 12);
}

#[test]
fn status_round_trips_through_its_code() {
    let all = vec![
        Status::EmptyQuery,
        Status::CommandOk,
        Status::TuplesOk,
        Status::CopyOut,
        Status::CopyIn,
        Status::BadResponse,
        Status::NonFatalError,
        Status::FatalError,
        Status::CopyBoth,
        Status::SingleTuple,
        Status::PipelineSync,
        Status::PipelineAborted,
        Status::TuplesChunk,
    ];
    for s in all {
        assert_eq!(Status::from_code(s.code()), Some(s));
    }
}

#[test]
fn unknown_status_code_is_rejected() {
    assert_eq!(Status::from_code(13), None);
    assert_eq!(Status::from_code(u32::MAX), None);
}

#[test]
fn format_codes_round_trip() {
    assert_eq!(Format::Text.code(), 0);
    assert_eq!(Format::Binary.code(), 1);
    assert_eq!(Format::from_code(0), Format::Text);
    assert_eq!(Format::from_code(1), Format::Binary);
    assert_eq!(Format::from_code(7), Format::Binary);
}

#[test]
fn error_field_codes_are_the_native_identifiers() {
    assert_eq!(ErrorField::Severity.code(), 'S' as i32);
    assert_eq!(ErrorField::SeverityNonlocalized.code(), 'V' as i32);
    assert_eq!(ErrorField::Sqlstate.code(), 'C' as i32);
    assert_eq!(ErrorField::MessagePrimary.code(), 'M' as i32);
    assert_eq!(ErrorField::MessageDetail.code(), 'D' as i32);
    assert_eq!(ErrorField::MessageHint.code(), 'H' as i32);
    assert_eq!(ErrorField::StatementPosition.code(), 'P' as i32);
    assert_eq!(ErrorField::InternalPosition.code(), 'p' as i32);
    assert_eq!(ErrorField::InternalQuery.code(), 'q' as i32);
    assert_eq!(ErrorField::Context.code(), 'W' as i32);
    assert_eq!(ErrorField::SchemaName.code(), 's' as i32);
    assert_eq!(ErrorField::TableName.code(), 't' as i32);
    assert_eq!(ErrorField::ColumnName.code(), 'c' as i32);
    assert_eq!(ErrorField::DatatypeName.code(), 'd' as i32);
    assert_eq!(ErrorField::ConstraintName.code(), 'n' as i32);
    assert_eq!(ErrorField::SourceFile.code(), 'F' as i32);
    assert_eq!(ErrorField::SourceLine.code(), 'L' as i32);
    assert_eq!(ErrorField::SourceFunction.code(), 'R' as i32);
}

#[test]
fn error_field_codes_are_distinct() {
    let all = vec![
        ErrorField::Severity,
        ErrorField::SeverityNonlocalized,
        ErrorField::Sqlstate,
        ErrorField::MessagePrimary,
        ErrorField::MessageDetail,
        ErrorField::MessageHint,
        ErrorField::StatementPosition,
        ErrorField::InternalPosition,
        ErrorField::InternalQuery,
        ErrorField::Context,
        ErrorField::SchemaName,
        ErrorField::TableName,
        ErrorField::ColumnName,
        ErrorField::DatatypeName,
        ErrorField::ConstraintName,
        ErrorField::SourceFile,
        ErrorField::SourceLine,
        ErrorField::SourceFunction,
    ];
    for (i, a) in all.iter().enumerate() {
        for (j, b) in all.iter().enumerate() {
            if i != j {
                assert_ne!(a.code(), b.code());
            }
        }
    }
}

#[test]
fn counts_come_through_unchanged() {
    assert_eq!(libpq::count_from_code(0), 0);
    assert_eq!(libpq::count_from_code(42), 42);
    assert_eq!(libpq::count_from_code(i32::MAX), i32::MAX as usize);
}

#[test]
fn negative_column_number_means_not_found() {
    assert_eq!(libpq::number_from_code(-1), None);
    assert_eq!(libpq::number_from_code(0), Some(0));
    assert_eq!(libpq::number_from_code(3), Some(3));
}

#[test]
fn negative_size_means_variable_length() {
    assert_eq!(libpq::size_from_code(-1), None);
    assert_eq!(libpq::size_from_code(0), Some(0));
    assert_eq!(libpq::size_from_code(8), Some(8));
}

#[test]
fn negative_modifier_means_absent() {
    assert_eq!(libpq::modifier_from_code(-1), None);
    assert_eq!(libpq::modifier_from_code(0), Some(0));
    assert_eq!(libpq::modifier_from_code(1048580), Some(1048580));
}

#[test]
fn invalid_oid_means_no_object() {
    assert_eq!(libpq::oid_from_code(libpq::INVALID_OID), None);
    assert_eq!(libpq::oid_from_code(16385), Some(16385));
}

#[test]
fn native_flags_are_one_for_yes() {
    assert!(libpq::flag_from_code(1));
    assert!(!libpq::flag_from_code(0));
    assert!(!libpq::flag_from_code(2));
}

#[test]
fn null_cell_is_told_apart_from_empty_cell() {
    assert_eq!(libpq::cell_value(String::new(), true), None);
    assert_eq!(libpq::cell_value(String::new(), false), Some(String::new()));
    assert_eq!(
        libpq::cell_value(String::from("x"), false),
        Some(String::from("x"))
    );
    assert_eq!(
        libpq::cell_value(String::from("x"), true),
        Some(String::from("x"))
    );
}

#[test]
fn empty_message_means_nothing_to_report() {
    assert_eq!(libpq::nonempty_text(String::new()), None);
    assert_eq!(
        libpq::nonempty_text(String::from("ERROR: boom")),
        Some(String::from("ERROR: boom"))
    );
}

#[test]
fn zero_success_code_is_failure() {
    assert_eq!(libpq::command_outcome(0), Err(()));
    assert_eq!(libpq::command_outcome(1), Ok(()));
    assert_eq!(libpq::command_outcome(-1), Ok(()));
}

#[test]
fn single_row_mode_succeeds_only_on_one() {
    assert_eq!(libpq::single_row_outcome(1), Ok(()));
    assert_eq!(libpq::single_row_outcome(0), Err(Error::Unknown));
    assert_eq!(libpq::single_row_outcome(2), Err(Error::Unknown));
}

#[test]
fn set_value_length_encodes_null_as_minus_one() {
    assert_eq!(libpq::set_value_length(&None), -1);
    assert_eq!(libpq::set_value_length(&Some(String::new())), 0);
    assert_eq!(libpq::set_value_length(&Some(String::from("abc"))), 3);
    // A multi-byte character counts by its encoded bytes, not by chars.
    assert_eq!(libpq::set_value_length(&Some(String::from("é"))), 2);
}

#[test]
fn attribute_keeps_its_fields() {
    let a = Attribute::new(
        String::from("id"),
        16385,
        1,
        Format::Text,
        23,
        4,
        -1,
    );
    assert_eq!(a.name, "id");
    assert_eq!(a.tableid, 16385);
    assert_eq!(a.columnid, 1);
    assert_eq!(a.format, Format::Text);
    assert_eq!(a.typid, 23);
    assert_eq!(a.typlen, 4);
    assert_eq!(a.atttypmod, -1);
}
