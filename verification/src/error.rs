//! Why an import failed, and the message that says so.

use crate::schema::Table;
use crate::text::{decimal, push_decimal};
use vstd::prelude::*;
use vstd::string::*;

verus! {

/// A component of a three-dimensional vector.
#[derive(Clone, Copy, Debug, PartialEq, Eq, Structural)]
pub enum Axis {
    X,
    Y,
    Z,
}

impl Axis {
    /// The component's position in the array form of a vector.
    pub open spec fn index_spec(self) -> nat {
        match self {
            Axis::X => 0,
            Axis::Y => 1,
            Axis::Z => 2,
        }
    }

    /// The component's name in the object form of a vector.
    pub open spec fn name_spec(self) -> Seq<char> {
        match self {
            Axis::X => "x"@,
            Axis::Y => "y"@,
            Axis::Z => "z"@,
        }
    }

    /// The component's position in the array form of a vector.
    pub fn index(self) -> (r: usize)
        ensures
            r == self.index_spec(),
    {
        match self {
            Axis::X => 0,
            Axis::Y => 1,
            Axis::Z => 2,
        }
    }

    /// The component's name in the object form of a vector.
    pub fn name(self) -> (r: &'static str)
        ensures
            r@ == self.name_spec(),
    {
        match self {
            Axis::X => "x",
            Axis::Y => "y",
            Axis::Z => "z",
        }
    }
}

/// Why a value is not a three-dimensional vector.
#[derive(Clone, Copy, Debug, PartialEq, Eq, Structural)]
pub enum VectorError {
    /// An object lacks the component, or holds something other than a number there.
    MissingComponent(Axis),
    /// An array has fewer than three elements.
    TooFewElements,
    /// An array holds something other than a number at the component's position.
    BadElement(Axis),
    /// The value is neither an object nor an array.
    NotObjectOrArray,
}

impl VectorError {
    /// The message for this failure.
    pub open spec fn message_spec(self) -> Seq<char> {
        match self {
            VectorError::MissingComponent(axis) => "missing or invalid '"@ + axis.name_spec()
                + "' field"@,
            VectorError::TooFewElements => "array must have at least 3 elements for Vector3"@,
            VectorError::BadElement(axis) => "element "@ + decimal(axis.index_spec()) + " ('"@
                + axis.name_spec() + "') is not a number"@,
            VectorError::NotObjectOrArray => "expected object or array for Vector3"@,
        }
    }

    /// Appends the message for this failure to `out`.
    pub fn push_message(self, out: &mut String)
        ensures
            final(out)@ == old(out)@ + self.message_spec(),
    {
        match self {
            VectorError::MissingComponent(axis) => {
                out.append("missing or invalid '");
                out.append(axis.name());
                out.append("' field");
                assert(final(out)@ =~= old(out)@ + self.message_spec());
            },
            VectorError::TooFewElements => {
                out.append("array must have at least 3 elements for Vector3");
            },
            VectorError::BadElement(axis) => {
                out.append("element ");
                push_decimal(out, axis.index() as u64);
                out.append(" ('");
                out.append(axis.name());
                out.append("') is not a number");
                assert(final(out)@ =~= old(out)@ + self.message_spec());
            },
            VectorError::NotObjectOrArray => {
                out.append("expected object or array for Vector3");
            },
        }
    }

    /// The message for this failure.
    pub fn message(self) -> (r: String)
        ensures
            r@ == self.message_spec(),
    {
        let mut out = String::new();
        self.push_message(&mut out);
        assert(out@ =~= self.message_spec());
        out
    }
}

/// Why a cell could not be decoded into its column's type.
#[derive(Clone, Copy, Debug, PartialEq, Eq, Structural)]
pub enum Reason {
    /// Not a number that is an unsigned 64-bit integer.
    NotUnsigned,
    /// An unsigned integer that does not fit the column's 32 bits.
    TooLarge,
    /// Not a number.
    NotNumber,
    /// Not a string.
    NotText,
    /// Neither a string nor an array, where either form is accepted.
    NotTextOrArray,
    /// Not an array, where a wrapped value is expected.
    NotArray,
    /// A wrapping array without elements.
    EmptyArray,
    /// A wrapped value that is not a signed 64-bit integer.
    NotInteger,
    /// A string that is not an even number of hexadecimal digits.
    InvalidHex,
    /// Not a vector.
    Vector(VectorError),
    /// The row's primary key was already given by an earlier row.
    DuplicateKey,
}

impl Reason {
    /// The message for this reason.
    pub open spec fn message_spec(self) -> Seq<char> {
        match self {
            Reason::NotUnsigned => "expected an unsigned integer"@,
            Reason::TooLarge => "integer does not fit in 32 bits"@,
            Reason::NotNumber => "expected a number"@,
            Reason::NotText => "expected a string"@,
            Reason::NotTextOrArray => "expected a hex string or an array wrapping one"@,
            Reason::NotArray => "expected a wrapping array"@,
            Reason::EmptyArray => "wrapping array is empty"@,
            Reason::NotInteger => "expected an integer"@,
            Reason::InvalidHex => "invalid hex"@,
            Reason::Vector(e) => e.message_spec(),
            Reason::DuplicateKey => "duplicate primary key"@,
        }
    }

    /// Appends the message for this reason to `out`.
    pub fn push_message(self, out: &mut String)
        ensures
            final(out)@ == old(out)@ + self.message_spec(),
    {
        match self {
            Reason::NotUnsigned => out.append("expected an unsigned integer"),
            Reason::TooLarge => out.append("integer does not fit in 32 bits"),
            Reason::NotNumber => out.append("expected a number"),
            Reason::NotText => out.append("expected a string"),
            Reason::NotTextOrArray => out.append("expected a hex string or an array wrapping one"),
            Reason::NotArray => out.append("expected a wrapping array"),
            Reason::EmptyArray => out.append("wrapping array is empty"),
            Reason::NotInteger => out.append("expected an integer"),
            Reason::InvalidHex => out.append("invalid hex"),
            Reason::Vector(e) => e.push_message(out),
            Reason::DuplicateKey => out.append("duplicate primary key"),
        }
    }

    /// The message for this reason.
    pub fn message(self) -> (r: String)
        ensures
            r@ == self.message_spec(),
    {
        let mut out = String::new();
        self.push_message(&mut out);
        assert(out@ =~= self.message_spec());
        out
    }
}

/// A cell that could not be decoded: its position in the row, and why.
#[derive(Clone, Copy, Debug, PartialEq, Eq, Structural)]
pub struct CellError {
    pub column: usize,
    pub reason: Reason,
}

/// Why an import failed.
#[derive(Debug, PartialEq, Eq)]
pub enum ImportError {
    /// The payload is not JSON; `message` is the parser's.
    Parse { message: String },
    /// The payload is not an array of exactly one object.
    MissingResultObject,
    /// The result object has no member `rows` that is an array.
    MissingRows,
    /// No table of that name can be imported.
    UnknownTable { name: String },
    /// Row `row` is not an array.
    RowNotArray { table: Table, row: usize },
    /// Row `row` has `actual` cells where the table needs `expected`.
    TooFewColumns { table: Table, row: usize, expected: usize, actual: usize },
    /// The cell in column `column` of row `row` could not be decoded.
    Cell { table: Table, row: usize, column: usize, reason: Reason },
}

/// The mathematical value of an [`ImportError`].
pub ghost enum ImportErrorView {
    Parse { message: Seq<char> },
    MissingResultObject,
    MissingRows,
    UnknownTable { name: Seq<char> },
    RowNotArray { table: Table, row: int },
    TooFewColumns { table: Table, row: int, expected: int, actual: int },
    Cell { table: Table, row: int, column: int, reason: Reason },
}

impl View for ImportError {
    type V = ImportErrorView;

    open spec fn view(&self) -> ImportErrorView {
        match self {
            ImportError::Parse { message } => ImportErrorView::Parse { message: message@ },
            ImportError::MissingResultObject => ImportErrorView::MissingResultObject,
            ImportError::MissingRows => ImportErrorView::MissingRows,
            ImportError::UnknownTable { name } => ImportErrorView::UnknownTable { name: name@ },
            ImportError::RowNotArray { table, row } => ImportErrorView::RowNotArray {
                table: *table,
                row: *row as int,
            },
            ImportError::TooFewColumns { table, row, expected, actual } => {
                ImportErrorView::TooFewColumns {
                    table: *table,
                    row: *row as int,
                    expected: *expected as int,
                    actual: *actual as int,
                }
            },
            ImportError::Cell { table, row, column, reason } => ImportErrorView::Cell {
                table: *table,
                row: *row as int,
                column: *column as int,
                reason: *reason,
            },
        }
    }
}

impl ImportErrorView {
    /// The row that the error is about, if it is about one.
    pub open spec fn row(self) -> Option<int> {
        match self {
            ImportErrorView::RowNotArray { row, .. } => Some(row),
            ImportErrorView::TooFewColumns { row, .. } => Some(row),
            ImportErrorView::Cell { row, .. } => Some(row),
            _ => None,
        }
    }

    /// The text that every message about row `row` of `table` begins with.
    pub open spec fn row_prefix(table: Table, row: int) -> Seq<char> {
        "Row "@ + decimal(row as nat) + " for '"@ + table.name_spec() + "'"@
    }

    /// The message that describes the error.
    pub open spec fn message(self) -> Seq<char> {
        match self {
            ImportErrorView::Parse { message } => "JSON parse error: "@ + message,
            ImportErrorView::MissingResultObject =>
                "Invalid JSON structure: expected array with one result object"@,
            ImportErrorView::MissingRows => "Invalid JSON structure: missing rows array"@,
            ImportErrorView::UnknownTable { name } => "Import not implemented for table: "@ + name,
            ImportErrorView::RowNotArray { table, row } => Self::row_prefix(table, row)
                + " is not an array"@,
            ImportErrorView::TooFewColumns { table, row, expected, actual } => Self::row_prefix(
                table,
                row,
            ) + " has too few columns (expected "@ + decimal(expected as nat) + ", got "@ + decimal(
                actual as nat,
            ) + ")"@,
            ImportErrorView::Cell { table, row, column, reason } => Self::row_prefix(table, row)
                + " Col "@ + decimal(column as nat) + " ('"@ + table.label_spec(column) + "'): "@
                + reason.message_spec(),
        }
    }
}

fn push_row_prefix(out: &mut String, table: Table, row: usize)
    ensures
        final(out)@ == old(out)@ + ImportErrorView::row_prefix(table, row as int),
{
    out.append("Row ");
    push_decimal(out, row as u64);
    out.append(" for '");
    out.append(table.name());
    out.append("'");
    assert(final(out)@ =~= old(out)@ + ImportErrorView::row_prefix(table, row as int));
}

impl ImportError {
    /// The message that describes the error: which step, row or column
    /// failed, and why.
    pub fn message(&self) -> (r: String)
        ensures
            r@ == self@.message(),
    {
        let mut out = String::new();
        match self {
            ImportError::Parse { message } => {
                out.append("JSON parse error: ");
                out.append(message.as_str());
            },
            ImportError::MissingResultObject => {
                out.append("Invalid JSON structure: expected array with one result object");
            },
            ImportError::MissingRows => {
                out.append("Invalid JSON structure: missing rows array");
            },
            ImportError::UnknownTable { name } => {
                out.append("Import not implemented for table: ");
                out.append(name.as_str());
            },
            ImportError::RowNotArray { table, row } => {
                push_row_prefix(&mut out, *table, *row);
                out.append(" is not an array");
            },
            ImportError::TooFewColumns { table, row, expected, actual } => {
                push_row_prefix(&mut out, *table, *row);
                out.append(" has too few columns (expected ");
                push_decimal(&mut out, *expected as u64);
                out.append(", got ");
                push_decimal(&mut out, *actual as u64);
                out.append(")");
            },
            ImportError::Cell { table, row, column, reason } => {
                push_row_prefix(&mut out, *table, *row);
                out.append(" Col ");
                push_decimal(&mut out, *column as u64);
                out.append(" ('");
                out.append(table.label(*column));
                out.append("'): ");
                reason.push_message(&mut out);
            },
        }
        assert(out@ =~= self@.message());
        out
    }
}

} // verus!
