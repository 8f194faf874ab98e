use table_import::error::{Axis, ImportError, Reason, VectorError};
use table_import::schema::Table;
use table_import::text::{decimal_string, push_decimal, same_text};

#[test]
fn decimal_numerals() {
    assert_eq!(decimal_string(0), "0");
    assert_eq!(decimal_string(7), "7");
    assert_eq!(decimal_string(10), "10");
    assert_eq!(decimal_string(1905), "1905");
    assert_eq!(decimal_string(u64::MAX), "18446744073709551615");
}

#[test]
fn push_decimal_appends() {
    let mut s = String::from("n=");
    push_decimal(&mut s, 42);
    push_decimal(&mut s, 0);
    assert_eq!(s, "n=420");
}

#[test]
fn same_text_compares_contents() {
    assert!(same_text("rows", "rows"));
    assert!(!same_text("rows", "row"));
    assert!(!same_text("rows", "Rows"));
    assert!(same_text("", ""));
}

#[test]
fn table_names_round_trip() {
    let all = [
        (Table::Config, "config", 2),
        (Table::Entity, "entity", 2),
        (Table::Mob, "mob", 2),
        (Table::MovementComponent, "movement_component", 3),
        (Table::Player, "player", 4),
        (Table::Message, "message", 4),
        (Table::Messages, "messages", 5),
    ];
    for (table, name, columns) in all {
        assert_eq!(table.name(), name);
        assert_eq!(Table::from_name(name), Some(table));
        assert_eq!(table.min_columns(), columns);
        assert_eq!(table.keyed(), table != Table::Message);
    }
    assert_eq!(Table::from_name("bogus"), None);
    assert_eq!(Table::from_name("Config"), None);
    assert_eq!(Table::from_name(""), None);
}

#[test]
fn column_labels() {
    assert_eq!(Table::Config.label(0), "id");
    assert_eq!(Table::Config.label(1), "world_size");
    assert_eq!(Table::Entity.label(1), "position");
    assert_eq!(Table::Mob.label(1), "speed");
    assert_eq!(Table::MovementComponent.label(1), "direction");
    assert_eq!(Table::MovementComponent.label(2), "speed");
    assert_eq!(Table::Player.label(0), "identity");
    assert_eq!(Table::Player.label(3), "entity_id");
    assert_eq!(Table::Message.label(0), "sender");
    assert_eq!(Table::Message.label(3), "sender_name");
    assert_eq!(Table::Messages.label(0), "id");
    assert_eq!(Table::Messages.label(2), "sent");
    assert_eq!(Table::Messages.label(4), "sender_name");
    assert_eq!(Table::Messages.label(5), "");
}

#[test]
fn vector_error_messages() {
    assert_eq!(
        VectorError::MissingComponent(Axis::Y).message(),
        "missing or invalid 'y' field"
    );
    assert_eq!(
        VectorError::TooFewElements.message(),
        "array must have at least 3 elements for Vector3"
    );
    assert_eq!(VectorError::BadElement(Axis::Z).message(), "element 2 ('z') is not a number");
    assert_eq!(VectorError::NotObjectOrArray.message(), "expected object or array for Vector3");
}

#[test]
fn reason_messages() {
    assert_eq!(Reason::NotUnsigned.message(), "expected an unsigned integer");
    assert_eq!(Reason::TooLarge.message(), "integer does not fit in 32 bits");
    assert_eq!(Reason::NotNumber.message(), "expected a number");
    assert_eq!(Reason::NotText.message(), "expected a string");
    assert_eq!(Reason::NotTextOrArray.message(), "expected a hex string or an array wrapping one");
    assert_eq!(Reason::NotArray.message(), "expected a wrapping array");
    assert_eq!(Reason::EmptyArray.message(), "wrapping array is empty");
    assert_eq!(Reason::NotInteger.message(), "expected an integer");
    assert_eq!(Reason::InvalidHex.message(), "invalid hex");
    assert_eq!(
        Reason::Vector(VectorError::TooFewElements).message(),
        "array must have at least 3 elements for Vector3"
    );
    assert_eq!(Reason::DuplicateKey.message(), "duplicate primary key");
}

#[test]
fn import_error_messages() {
    assert_eq!(
        ImportError::Parse { message: "EOF".to_string() }.message(),
        "JSON parse error: EOF"
    );
    assert_eq!(
        ImportError::MissingResultObject.message(),
        "Invalid JSON structure: expected array with one result object"
    );
    assert_eq!(
        ImportError::MissingRows.message(),
        "Invalid JSON structure: missing rows array"
    );
    assert_eq!(
        ImportError::UnknownTable { name: "bogus".to_string() }.message(),
        "Import not implemented for table: bogus"
    );
    assert_eq!(
        ImportError::RowNotArray { table: Table::Mob, row: 12 }.message(),
        "Row 12 for 'mob' is not an array"
    );
    assert_eq!(
        ImportError::TooFewColumns { table: Table::Player, row: 0, expected: 4, actual: 3 }
            .message(),
        "Row 0 for 'player' has too few columns (expected 4, got 3)"
    );
    assert_eq!(
        ImportError::Cell {
            table: Table::Player,
            row: 3,
            column: 1,
            reason: Reason::TooLarge
        }
        .message(),
        "Row 3 for 'player' Col 1 ('player_id'): integer does not fit in 32 bits"
    );
    assert_eq!(
        ImportError::Cell {
            table: Table::Entity,
            row: 10,
            column: 1,
            reason: Reason::Vector(VectorError::BadElement(Axis::X))
        }
        .message(),
        "Row 10 for 'entity' Col 1 ('position'): element 0 ('x') is not a number"
    );
}
