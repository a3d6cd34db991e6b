use vstd::prelude::*;

verus! {

/// A field of an error or notice report, addressed by its native code.
///
/// The native client library lets a caller pick one field of an error
/// report — its severity, its SQLSTATE code, the primary message, and so
/// on — by passing a one-character field identifier. Each variant here
/// stands for one identifier; [`ErrorField::code`] yields it, and the
/// mapping is proved injective, so no two fields share an identifier.
#[derive(Clone, Copy, Debug, PartialEq, Eq, Structural)]
pub enum ErrorField {
    /// Severity of the report, localized.
    Severity,
    /// Severity of the report, never localized.
    SeverityNonlocalized,
    /// The SQLSTATE code of the error.
    Sqlstate,
    /// The primary, one-line message.
    MessagePrimary,
    /// An optional secondary message with more detail.
    MessageDetail,
    /// An optional suggestion on how to deal with the problem.
    MessageHint,
    /// A cursor position into the original statement, counted in characters.
    StatementPosition,
    /// A cursor position into an internally generated statement.
    InternalPosition,
    /// The text of the internally generated statement.
    InternalQuery,
    /// The call stack context in which the error occurred.
    Context,
    /// The schema the error is associated with.
    SchemaName,
    /// The table the error is associated with.
    TableName,
    /// The table column the error is associated with.
    ColumnName,
    /// The data type the error is associated with.
    DatatypeName,
    /// The constraint the error is associated with.
    ConstraintName,
    /// The source file the error was reported from.
    SourceFile,
    /// The source line the error was reported from.
    SourceLine,
    /// The source function the error was reported from.
    SourceFunction,
}

impl ErrorField {
    /// The one-character identifier of this field, as an integer: the
    /// native library takes `'S'` for the severity, `'C'` for the
    /// SQLSTATE, `'M'` for the primary message, and so on.
    pub open spec fn spec_code(self) -> i32 {
        match self {
            ErrorField::Severity => 83,  // 'S'
            ErrorField::SeverityNonlocalized => 86,  // 'V'
            ErrorField::Sqlstate => 67,  // 'C'
            ErrorField::MessagePrimary => 77,  // 'M'
            ErrorField::MessageDetail => 68,  // 'D'
            ErrorField::MessageHint => 72,  // 'H'
            ErrorField::StatementPosition => 80,  // 'P'
            ErrorField::InternalPosition => 112,  // 'p'
            ErrorField::InternalQuery => 113,  // 'q'
            ErrorField::Context => 87,  // 'W'
            ErrorField::SchemaName => 115,  // 's'
            ErrorField::TableName => 116,  // 't'
            ErrorField::ColumnName => 99,  // 'c'
            ErrorField::DatatypeName => 100,  // 'd'
            ErrorField::ConstraintName => 110,  // 'n'
            ErrorField::SourceFile => 70,  // 'F'
            ErrorField::SourceLine => 76,  // 'L'
            ErrorField::SourceFunction => 82,  // 'R'
        }
    }

    /// Returns the native field identifier for this field.
    pub fn code(self) -> (r: i32)
        ensures
            r == self.spec_code(),
    {
        match self {
            ErrorField::Severity => 83,
            ErrorField::SeverityNonlocalized => 86,
            ErrorField::Sqlstate => 67,
            ErrorField::MessagePrimary => 77,
            ErrorField::MessageDetail => 68,
            ErrorField::MessageHint => 72,
            ErrorField::StatementPosition => 80,
            ErrorField::InternalPosition => 112,
            ErrorField::InternalQuery => 113,
            ErrorField::Context => 87,
            ErrorField::SchemaName => 115,
            ErrorField::TableName => 116,
            ErrorField::ColumnName => 99,
            ErrorField::DatatypeName => 100,
            ErrorField::ConstraintName => 110,
            ErrorField::SourceFile => 70,
            ErrorField::SourceLine => 76,
            ErrorField::SourceFunction => 82,
        }
    }
}

/// No two error fields share a native identifier: the identifier picks
/// the field out uniquely.
pub proof fn lemma_error_field_code_injective(a: ErrorField, b: ErrorField)
    ensures
        a.spec_code() == b.spec_code() ==> a == b,
{
}

} // verus!
