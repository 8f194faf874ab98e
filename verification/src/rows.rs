//! How a row of each table is decoded: its columns in order, which rows are
//! stored, and what its primary key is.

use crate::decode::{
    bare_identity_of, decode_bare_identity, decode_double, decode_optional_u32, decode_text,
    decode_timestamp, decode_u32, decode_u64, decode_wrapped_identity, double_of,
    optional_u32_of, parse_dbvector3, text_of, timestamp_of, u32_of, u64_of, vector3_of,
    wrapped_identity_of,
};
use crate::error::{CellError, Reason};
use crate::hex::same_bytes;
use crate::json::{Json, JsonView};
use crate::model::views;
use crate::records::{
    Config, Entity, Message, MessageView, Messages, MessagesView, Mob, MovementComponent, Player,
    PlayerView,
};
use crate::schema::Table;
use vstd::prelude::*;

verus! {

/// A failure in column `column`, or the value.
pub open spec fn at_column<T>(column: usize, value: Result<T, Reason>) -> Result<T, CellError> {
    match value {
        Ok(v) => Ok(v),
        Err(reason) => Err(CellError { column, reason }),
    }
}

/// A destination record and the layout of the rows it is decoded from.
pub trait Row: Sized + View {
    /// The table that holds records of this type.
    spec fn table() -> Table;

    /// The record that a row's cells decode to, or the first cell in column
    /// order that fails. Cells past the table's last column are ignored.
    spec fn decoded(cells: Seq<JsonView>) -> Result<Self::V, CellError>;

    /// Whether a decoded record is inserted. One that is not is skipped
    /// without an error.
    spec fn stored(record: Self::V) -> bool;

    /// Whether two records have the same primary key. Never, in a table
    /// without one.
    spec fn same_key(a: Self::V, b: Self::V) -> bool;

    /// The table that holds records of this type.
    fn layout() -> (r: Table)
        ensures
            r == Self::table(),
    ;

    /// Decodes a row's cells.
    fn decode(cells: &Vec<Json>) -> (r: Result<Self, CellError>)
        requires
            cells@.len() >= Self::table().min_columns_spec(),
        ensures
            match r {
                Ok(record) => Self::decoded(views(cells@)) == Ok::<Self::V, CellError>(record@),
                Err(e) => Self::decoded(views(cells@)) == Err::<Self::V, CellError>(e),
            },
    ;

    /// Whether this record is inserted.
    fn is_stored(&self) -> (r: bool)
        ensures
            r == Self::stored(self@),
    ;

    /// Whether this record and `other` have the same primary key.
    fn has_key_of(&self, other: &Self) -> (r: bool)
        ensures
            r == Self::same_key(self@, other@),
    ;
}

impl Row for Config {
    open spec fn table() -> Table {
        Table::Config
    }

    open spec fn decoded(cells: Seq<JsonView>) -> Result<Config, CellError> {
        match at_column(0, u32_of(cells[0])) {
            Err(e) => Err(e),
            Ok(id) => match at_column(1, u64_of(cells[1])) {
                Err(e) => Err(e),
                Ok(world_size) => Ok(Config { id, world_size }),
            },
        }
    }

    open spec fn stored(record: Config) -> bool {
        record.id == 0
    }

    open spec fn same_key(a: Config, b: Config) -> bool {
        a.id == b.id
    }

    fn layout() -> (r: Table) {
        Table::Config
    }

    fn decode(cells: &Vec<Json>) -> (r: Result<Config, CellError>) {
        let id = match decode_u32(&cells[0]) {
            Ok(v) => v,
            Err(reason) => return Err(CellError { column: 0, reason }),
        };
        let world_size = match decode_u64(&cells[1]) {
            Ok(v) => v,
            Err(reason) => return Err(CellError { column: 1, reason }),
        };
        Ok(Config { id, world_size })
    }

    fn is_stored(&self) -> (r: bool) {
        self.id == 0
    }

    fn has_key_of(&self, other: &Config) -> (r: bool) {
        self.id == other.id
    }
}

impl Row for Entity {
    open spec fn table() -> Table {
        Table::Entity
    }

    open spec fn decoded(cells: Seq<JsonView>) -> Result<Entity, CellError> {
        match at_column(0, u32_of(cells[0])) {
            Err(e) => Err(e),
            Ok(entity_id) => match vector3_of(cells[1]) {
                Err(e) => Err(CellError { column: 1, reason: Reason::Vector(e) }),
                Ok(position) => Ok(Entity { entity_id, position }),
            },
        }
    }

    open spec fn stored(record: Entity) -> bool {
        true
    }

    open spec fn same_key(a: Entity, b: Entity) -> bool {
        a.entity_id == b.entity_id
    }

    fn layout() -> (r: Table) {
        Table::Entity
    }

    fn decode(cells: &Vec<Json>) -> (r: Result<Entity, CellError>) {
        let entity_id = match decode_u32(&cells[0]) {
            Ok(v) => v,
            Err(reason) => return Err(CellError { column: 0, reason }),
        };
        let position = match parse_dbvector3(&cells[1]) {
            Ok(v) => v,
            Err(e) => return Err(CellError { column: 1, reason: Reason::Vector(e) }),
        };
        Ok(Entity { entity_id, position })
    }

    fn is_stored(&self) -> (r: bool) {
        true
    }

    fn has_key_of(&self, other: &Entity) -> (r: bool) {
        self.entity_id == other.entity_id
    }
}

impl Row for Mob {
    open spec fn table() -> Table {
        Table::Mob
    }

    open spec fn decoded(cells: Seq<JsonView>) -> Result<Mob, CellError> {
        match at_column(0, u32_of(cells[0])) {
            Err(e) => Err(e),
            Ok(entity_id) => match at_column(1, double_of(cells[1])) {
                Err(e) => Err(e),
                Ok(speed) => Ok(Mob { entity_id, speed }),
            },
        }
    }

    open spec fn stored(record: Mob) -> bool {
        true
    }

    open spec fn same_key(a: Mob, b: Mob) -> bool {
        a.entity_id == b.entity_id
    }

    fn layout() -> (r: Table) {
        Table::Mob
    }

    fn decode(cells: &Vec<Json>) -> (r: Result<Mob, CellError>) {
        let entity_id = match decode_u32(&cells[0]) {
            Ok(v) => v,
            Err(reason) => return Err(CellError { column: 0, reason }),
        };
        let speed = match decode_double(&cells[1]) {
            Ok(v) => v,
            Err(reason) => return Err(CellError { column: 1, reason }),
        };
        Ok(Mob { entity_id, speed })
    }

    fn is_stored(&self) -> (r: bool) {
        true
    }

    fn has_key_of(&self, other: &Mob) -> (r: bool) {
        self.entity_id == other.entity_id
    }
}

impl Row for MovementComponent {
    open spec fn table() -> Table {
        Table::MovementComponent
    }

    open spec fn decoded(cells: Seq<JsonView>) -> Result<MovementComponent, CellError> {
        match at_column(0, u32_of(cells[0])) {
            Err(e) => Err(e),
            Ok(entity_id) => match vector3_of(cells[1]) {
                Err(e) => Err(CellError { column: 1, reason: Reason::Vector(e) }),
                Ok(direction) => match at_column(2, double_of(cells[2])) {
                    Err(e) => Err(e),
                    Ok(speed) => Ok(MovementComponent { entity_id, direction, speed }),
                },
            },
        }
    }

    open spec fn stored(record: MovementComponent) -> bool {
        true
    }

    open spec fn same_key(a: MovementComponent, b: MovementComponent) -> bool {
        a.entity_id == b.entity_id
    }

    fn layout() -> (r: Table) {
        Table::MovementComponent
    }

    fn decode(cells: &Vec<Json>) -> (r: Result<MovementComponent, CellError>) {
        let entity_id = match decode_u32(&cells[0]) {
            Ok(v) => v,
            Err(reason) => return Err(CellError { column: 0, reason }),
        };
        let direction = match parse_dbvector3(&cells[1]) {
            Ok(v) => v,
            Err(e) => return Err(CellError { column: 1, reason: Reason::Vector(e) }),
        };
        let speed = match decode_double(&cells[2]) {
            Ok(v) => v,
            Err(reason) => return Err(CellError { column: 2, reason }),
        };
        Ok(MovementComponent { entity_id, direction, speed })
    }

    fn is_stored(&self) -> (r: bool) {
        true
    }

    fn has_key_of(&self, other: &MovementComponent) -> (r: bool) {
        self.entity_id == other.entity_id
    }
}

impl Row for Player {
    open spec fn table() -> Table {
        Table::Player
    }

    open spec fn decoded(cells: Seq<JsonView>) -> Result<PlayerView, CellError> {
        match at_column(0, bare_identity_of(cells[0])) {
            Err(e) => Err(e),
            Ok(identity) => match at_column(1, u32_of(cells[1])) {
                Err(e) => Err(e),
                Ok(player_id) => match at_column(2, text_of(cells[2])) {
                    Err(e) => Err(e),
                    Ok(name) => match at_column(3, optional_u32_of(cells[3])) {
                        Err(e) => Err(e),
                        Ok(entity_id) => Ok(PlayerView { identity, player_id, name, entity_id }),
                    },
                },
            },
        }
    }

    open spec fn stored(record: PlayerView) -> bool {
        true
    }

    open spec fn same_key(a: PlayerView, b: PlayerView) -> bool {
        a.identity == b.identity
    }

    fn layout() -> (r: Table) {
        Table::Player
    }

    fn decode(cells: &Vec<Json>) -> (r: Result<Player, CellError>) {
        let identity = match decode_bare_identity(&cells[0]) {
            Ok(v) => v,
            Err(reason) => return Err(CellError { column: 0, reason }),
        };
        let player_id = match decode_u32(&cells[1]) {
            Ok(v) => v,
            Err(reason) => return Err(CellError { column: 1, reason }),
        };
        let name = match decode_text(&cells[2]) {
            Ok(v) => v,
            Err(reason) => return Err(CellError { column: 2, reason }),
        };
        let entity_id = match decode_optional_u32(&cells[3]) {
            Ok(v) => v,
            Err(reason) => return Err(CellError { column: 3, reason }),
        };
        Ok(Player { identity, player_id, name, entity_id })
    }

    fn is_stored(&self) -> (r: bool) {
        true
    }

    fn has_key_of(&self, other: &Player) -> (r: bool) {
        same_bytes(&self.identity.bytes, &other.identity.bytes)
    }
}

impl Row for Message {
    open spec fn table() -> Table {
        Table::Message
    }

    open spec fn decoded(cells: Seq<JsonView>) -> Result<MessageView, CellError> {
        match at_column(0, wrapped_identity_of(cells[0])) {
            Err(e) => Err(e),
            Ok(sender) => match at_column(1, timestamp_of(cells[1])) {
                Err(e) => Err(e),
                Ok(sent) => match at_column(2, text_of(cells[2])) {
                    Err(e) => Err(e),
                    Ok(text) => match at_column(3, text_of(cells[3])) {
                        Err(e) => Err(e),
                        Ok(sender_name) => Ok(MessageView { sender, sent, text, sender_name }),
                    },
                },
            },
        }
    }

    open spec fn stored(record: MessageView) -> bool {
        true
    }

    open spec fn same_key(a: MessageView, b: MessageView) -> bool {
        false
    }

    fn layout() -> (r: Table) {
        Table::Message
    }

    fn decode(cells: &Vec<Json>) -> (r: Result<Message, CellError>) {
        let sender = match decode_wrapped_identity(&cells[0]) {
            Ok(v) => v,
            Err(reason) => return Err(CellError { column: 0, reason }),
        };
        let sent = match decode_timestamp(&cells[1]) {
            Ok(v) => v,
            Err(reason) => return Err(CellError { column: 1, reason }),
        };
        let text = match decode_text(&cells[2]) {
            Ok(v) => v,
            Err(reason) => return Err(CellError { column: 2, reason }),
        };
        let sender_name = match decode_text(&cells[3]) {
            Ok(v) => v,
            Err(reason) => return Err(CellError { column: 3, reason }),
        };
        Ok(Message { sender, sent, text, sender_name })
    }

    fn is_stored(&self) -> (r: bool) {
        true
    }

    fn has_key_of(&self, other: &Message) -> (r: bool) {
        false
    }
}

impl Row for Messages {
    open spec fn table() -> Table {
        Table::Messages
    }

    open spec fn decoded(cells: Seq<JsonView>) -> Result<MessagesView, CellError> {
        match at_column(0, u64_of(cells[0])) {
            Err(e) => Err(e),
            Ok(id) => match at_column(1, wrapped_identity_of(cells[1])) {
                Err(e) => Err(e),
                Ok(sender) => match at_column(2, timestamp_of(cells[2])) {
                    Err(e) => Err(e),
                    Ok(sent) => match at_column(3, text_of(cells[3])) {
                        Err(e) => Err(e),
                        Ok(text) => match at_column(4, text_of(cells[4])) {
                            Err(e) => Err(e),
                            Ok(sender_name) => Ok(
                                MessagesView { id, sender, sent, text, sender_name },
                            ),
                        },
                    },
                },
            },
        }
    }

    open spec fn stored(record: MessagesView) -> bool {
        true
    }

    open spec fn same_key(a: MessagesView, b: MessagesView) -> bool {
        a.id == b.id
    }

    fn layout() -> (r: Table) {
        Table::Messages
    }

    fn decode(cells: &Vec<Json>) -> (r: Result<Messages, CellError>) {
        let id = match decode_u64(&cells[0]) {
            Ok(v) => v,
            Err(reason) => return Err(CellError { column: 0, reason }),
        };
        let sender = match decode_wrapped_identity(&cells[1]) {
            Ok(v) => v,
            Err(reason) => return Err(CellError { column: 1, reason }),
        };
        let sent = match decode_timestamp(&cells[2]) {
            Ok(v) => v,
            Err(reason) => return Err(CellError { column: 2, reason }),
        };
        let text = match decode_text(&cells[3]) {
            Ok(v) => v,
            Err(reason) => return Err(CellError { column: 3, reason }),
        };
        let sender_name = match decode_text(&cells[4]) {
            Ok(v) => v,
            Err(reason) => return Err(CellError { column: 4, reason }),
        };
        Ok(Messages { id, sender, sent, text, sender_name })
    }

    fn is_stored(&self) -> (r: bool) {
        true
    }

    fn has_key_of(&self, other: &Messages) -> (r: bool) {
        self.id == other.id
    }
}

} // verus!
