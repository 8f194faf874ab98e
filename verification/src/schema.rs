//! The destination tables: their names, column counts and column labels.

use crate::text::same_text;
use vstd::prelude::*;

verus! {

/// A destination table.
#[derive(Clone, Copy, Debug, PartialEq, Eq, Structural)]
pub enum Table {
    Config,
    Entity,
    Mob,
    MovementComponent,
    Player,
    Message,
    Messages,
}

impl Table {
    /// The name by which a payload addresses the table.
    pub open spec fn name_spec(self) -> Seq<char> {
        match self {
            Table::Config => "config"@,
            Table::Entity => "entity"@,
            Table::Mob => "mob"@,
            Table::MovementComponent => "movement_component"@,
            Table::Player => "player"@,
            Table::Message => "message"@,
            Table::Messages => "messages"@,
        }
    }

    /// The table that `name` addresses, if any. Names are compared exactly.
    pub open spec fn named(name: Seq<char>) -> Option<Table> {
        if name == "config"@ {
            Some(Table::Config)
        } else if name == "entity"@ {
            Some(Table::Entity)
        } else if name == "mob"@ {
            Some(Table::Mob)
        } else if name == "movement_component"@ {
            Some(Table::MovementComponent)
        } else if name == "player"@ {
            Some(Table::Player)
        } else if name == "message"@ {
            Some(Table::Message)
        } else if name == "messages"@ {
            Some(Table::Messages)
        } else {
            None
        }
    }

    /// The least number of cells a row of the table must have.
    pub open spec fn min_columns_spec(self) -> nat {
        match self {
            Table::Config => 2,
            Table::Entity => 2,
            Table::Mob => 2,
            Table::MovementComponent => 3,
            Table::Player => 4,
            Table::Message => 4,
            Table::Messages => 5,
        }
    }

    /// Whether the table has a primary key. A keyed table is cleared before
    /// new rows are inserted; the table without one is appended to.
    pub open spec fn keyed_spec(self) -> bool {
        !(self is Message)
    }

    /// The label of column `column`, the empty text for a column past the
    /// table's layout.
    pub open spec fn label_spec(self, column: int) -> Seq<char> {
        match self {
            Table::Config => if column == 0 {
                "id"@
            } else if column == 1 {
                "world_size"@
            } else {
                ""@
            },
            Table::Entity => if column == 0 {
                "entity_id"@
            } else if column == 1 {
                "position"@
            } else {
                ""@
            },
            Table::Mob => if column == 0 {
                "entity_id"@
            } else if column == 1 {
                "speed"@
            } else {
                ""@
            },
            Table::MovementComponent => if column == 0 {
                "entity_id"@
            } else if column == 1 {
                "direction"@
            } else if column == 2 {
                "speed"@
            } else {
                ""@
            },
            Table::Player => if column == 0 {
                "identity"@
            } else if column == 1 {
                "player_id"@
            } else if column == 2 {
                "name"@
            } else if column == 3 {
                "entity_id"@
            } else {
                ""@
            },
            Table::Message => if column == 0 {
                "sender"@
            } else if column == 1 {
                "sent"@
            } else if column == 2 {
                "text"@
            } else if column == 3 {
                "sender_name"@
            } else {
                ""@
            },
            Table::Messages => if column == 0 {
                "id"@
            } else if column == 1 {
                "sender"@
            } else if column == 2 {
                "sent"@
            } else if column == 3 {
                "text"@
            } else if column == 4 {
                "sender_name"@
            } else {
                ""@
            },
        }
    }

    /// The table that `name` addresses, if any.
    pub fn from_name(name: &str) -> (r: Option<Table>)
        ensures
            r == Table::named(name@),
    {
        if same_text(name, "config") {
            Some(Table::Config)
        } else if same_text(name, "entity") {
            Some(Table::Entity)
        } else if same_text(name, "mob") {
            Some(Table::Mob)
        } else if same_text(name, "movement_component") {
            Some(Table::MovementComponent)
        } else if same_text(name, "player") {
            Some(Table::Player)
        } else if same_text(name, "message") {
            Some(Table::Message)
        } else if same_text(name, "messages") {
            Some(Table::Messages)
        } else {
            None
        }
    }

    /// The name by which a payload addresses the table.
    pub fn name(self) -> (r: &'static str)
        ensures
            r@ == self.name_spec(),
    {
        match self {
            Table::Config => "config",
            Table::Entity => "entity",
            Table::Mob => "mob",
            Table::MovementComponent => "movement_component",
            Table::Player => "player",
            Table::Message => "message",
            Table::Messages => "messages",
        }
    }

    /// The least number of cells a row of the table must have.
    pub fn min_columns(self) -> (r: usize)
        ensures
            r == self.min_columns_spec(),
    {
        match self {
            Table::Config => 2,
            Table::Entity => 2,
            Table::Mob => 2,
            Table::MovementComponent => 3,
            Table::Player => 4,
            Table::Message => 4,
            Table::Messages => 5,
        }
    }

    /// Whether the table has a primary key.
    pub fn keyed(self) -> (r: bool)
        ensures
            r == self.keyed_spec(),
    {
        match self {
            Table::Message => false,
            _ => true,
        }
    }

    /// The label of column `column`, the empty text for a column past the
    /// table's layout.
    pub fn label(self, column: usize) -> (r: &'static str)
        ensures
            r@ == self.label_spec(column as int),
    {
        match self {
            Table::Config => if column == 0 {
                "id"
            } else if column == 1 {
                "world_size"
            } else {
                ""
            },
            Table::Entity => if column == 0 {
                "entity_id"
            } else if column == 1 {
                "position"
            } else {
                ""
            },
            Table::Mob => if column == 0 {
                "entity_id"
            } else if column == 1 {
                "speed"
            } else {
                ""
            },
            Table::MovementComponent => if column == 0 {
                "entity_id"
            } else if column == 1 {
                "direction"
            } else if column == 2 {
                "speed"
            } else {
                ""
            },
            Table::Player => if column == 0 {
                "identity"
            } else if column == 1 {
                "player_id"
            } else if column == 2 {
                "name"
            } else if column == 3 {
                "entity_id"
            } else {
                ""
            },
            Table::Message => if column == 0 {
                "sender"
            } else if column == 1 {
                "sent"
            } else if column == 2 {
                "text"
            } else if column == 3 {
                "sender_name"
            } else {
                ""
            },
            Table::Messages => if column == 0 {
                "id"
            } else if column == 1 {
                "sender"
            } else if column == 2 {
                "sent"
            } else if column == 3 {
                "text"
            } else if column == 4 {
                "sender_name"
            } else {
                ""
            },
        }
    }
}

/// A table's name addresses that table and no other.
pub proof fn lemma_name_round_trip(table: Table)
    ensures
        Table::named(table.name_spec()) == Some(table),
{
    reveal_strlit("config");
    reveal_strlit("entity");
    reveal_strlit("mob");
    reveal_strlit("movement_component");
    reveal_strlit("player");
    reveal_strlit("message");
    reveal_strlit("messages");
    assert("config"@.len() == 6);
    assert("entity"@.len() == 6);
    assert("mob"@.len() == 3);
    assert("movement_component"@.len() == 18);
    assert("player"@.len() == 6);
    assert("message"@.len() == 7);
    assert("messages"@.len() == 8);
    assert("config"@[0] == 'c');
    assert("entity"@[0] == 'e');
    assert("player"@[0] == 'p');
}

} // verus!
