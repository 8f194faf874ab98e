//! The destination collections, and how a decoded batch replaces one.

use crate::model::{lemma_views_add, views};
use crate::records::{
    Config, Entity, Message, MessageView, Messages, MessagesView, Mob, MovementComponent, Player,
    PlayerView,
};
use crate::schema::Table;
use vstd::prelude::*;

verus! {

/// The rows decoded for one table, ready to be stored.
#[derive(Debug, PartialEq, Eq)]
pub enum Batch {
    Config(Vec<Config>),
    Entity(Vec<Entity>),
    Mob(Vec<Mob>),
    MovementComponent(Vec<MovementComponent>),
    Player(Vec<Player>),
    Message(Vec<Message>),
    Messages(Vec<Messages>),
}

/// The mathematical value of a [`Batch`].
pub ghost enum BatchView {
    Config(Seq<Config>),
    Entity(Seq<Entity>),
    Mob(Seq<Mob>),
    MovementComponent(Seq<MovementComponent>),
    Player(Seq<PlayerView>),
    Message(Seq<MessageView>),
    Messages(Seq<MessagesView>),
}

impl BatchView {
    /// The table that the batch is for.
    pub open spec fn table(self) -> Table {
        match self {
            BatchView::Config(_) => Table::Config,
            BatchView::Entity(_) => Table::Entity,
            BatchView::Mob(_) => Table::Mob,
            BatchView::MovementComponent(_) => Table::MovementComponent,
            BatchView::Player(_) => Table::Player,
            BatchView::Message(_) => Table::Message,
            BatchView::Messages(_) => Table::Messages,
        }
    }

    /// The number of records in the batch.
    pub open spec fn len(self) -> nat {
        match self {
            BatchView::Config(rows) => rows.len(),
            BatchView::Entity(rows) => rows.len(),
            BatchView::Mob(rows) => rows.len(),
            BatchView::MovementComponent(rows) => rows.len(),
            BatchView::Player(rows) => rows.len(),
            BatchView::Message(rows) => rows.len(),
            BatchView::Messages(rows) => rows.len(),
        }
    }
}

impl View for Batch {
    type V = BatchView;

    open spec fn view(&self) -> BatchView {
        match self {
            Batch::Config(rows) => BatchView::Config(views(rows@)),
            Batch::Entity(rows) => BatchView::Entity(views(rows@)),
            Batch::Mob(rows) => BatchView::Mob(views(rows@)),
            Batch::MovementComponent(rows) => BatchView::MovementComponent(views(rows@)),
            Batch::Player(rows) => BatchView::Player(views(rows@)),
            Batch::Message(rows) => BatchView::Message(views(rows@)),
            Batch::Messages(rows) => BatchView::Messages(views(rows@)),
        }
    }
}

impl Batch {
    /// The table that the batch is for.
    pub fn table(&self) -> (r: Table)
        ensures
            r == self@.table(),
    {
        match self {
            Batch::Config(_) => Table::Config,
            Batch::Entity(_) => Table::Entity,
            Batch::Mob(_) => Table::Mob,
            Batch::MovementComponent(_) => Table::MovementComponent,
            Batch::Player(_) => Table::Player,
            Batch::Message(_) => Table::Message,
            Batch::Messages(_) => Table::Messages,
        }
    }

    /// The number of records in the batch.
    pub fn len(&self) -> (r: usize)
        ensures
            r == self@.len(),
    {
        match self {
            Batch::Config(rows) => rows.len(),
            Batch::Entity(rows) => rows.len(),
            Batch::Mob(rows) => rows.len(),
            Batch::MovementComponent(rows) => rows.len(),
            Batch::Player(rows) => rows.len(),
            Batch::Message(rows) => rows.len(),
            Batch::Messages(rows) => rows.len(),
        }
    }
}

/// The seven destination collections.
#[derive(Debug, PartialEq, Eq)]
pub struct Database {
    pub config: Vec<Config>,
    pub entity: Vec<Entity>,
    pub mob: Vec<Mob>,
    pub movement_component: Vec<MovementComponent>,
    pub player: Vec<Player>,
    pub message: Vec<Message>,
    pub messages: Vec<Messages>,
}

/// The mathematical value of a [`Database`]: the records of each table in
/// the order in which they were inserted.
pub ghost struct DatabaseView {
    pub config: Seq<Config>,
    pub entity: Seq<Entity>,
    pub mob: Seq<Mob>,
    pub movement_component: Seq<MovementComponent>,
    pub player: Seq<PlayerView>,
    pub message: Seq<MessageView>,
    pub messages: Seq<MessagesView>,
}

impl DatabaseView {
    /// The database after `batch` is stored: a keyed table holds the batch in
    /// place of what it held, the table without a key holds the batch after
    /// what it held, and every other table is as it was.
    pub open spec fn applied(self, batch: BatchView) -> DatabaseView {
        match batch {
            BatchView::Config(rows) => DatabaseView { config: rows, ..self },
            BatchView::Entity(rows) => DatabaseView { entity: rows, ..self },
            BatchView::Mob(rows) => DatabaseView { mob: rows, ..self },
            BatchView::MovementComponent(rows) => DatabaseView { movement_component: rows, ..self },
            BatchView::Player(rows) => DatabaseView { player: rows, ..self },
            BatchView::Message(rows) => DatabaseView { message: self.message + rows, ..self },
            BatchView::Messages(rows) => DatabaseView { messages: rows, ..self },
        }
    }

    /// The number of records in `table`.
    pub open spec fn count(self, table: Table) -> nat {
        match table {
            Table::Config => self.config.len(),
            Table::Entity => self.entity.len(),
            Table::Mob => self.mob.len(),
            Table::MovementComponent => self.movement_component.len(),
            Table::Player => self.player.len(),
            Table::Message => self.message.len(),
            Table::Messages => self.messages.len(),
        }
    }
}

impl View for Database {
    type V = DatabaseView;

    open spec fn view(&self) -> DatabaseView {
        DatabaseView {
            config: views(self.config@),
            entity: views(self.entity@),
            mob: views(self.mob@),
            movement_component: views(self.movement_component@),
            player: views(self.player@),
            message: views(self.message@),
            messages: views(self.messages@),
        }
    }
}

impl Database {
    /// A database whose tables are all empty.
    pub fn new() -> (r: Database)
        ensures
            r@ == (DatabaseView {
                config: Seq::empty(),
                entity: Seq::empty(),
                mob: Seq::empty(),
                movement_component: Seq::empty(),
                player: Seq::empty(),
                message: Seq::empty(),
                messages: Seq::empty(),
            }),
    {
        let r = Database {
            config: Vec::new(),
            entity: Vec::new(),
            mob: Vec::new(),
            movement_component: Vec::new(),
            player: Vec::new(),
            message: Vec::new(),
            messages: Vec::new(),
        };
        assert(r@.config =~= Seq::empty());
        assert(r@.entity =~= Seq::empty());
        assert(r@.mob =~= Seq::empty());
        assert(r@.movement_component =~= Seq::empty());
        assert(r@.player =~= Seq::empty());
        assert(r@.message =~= Seq::empty());
        assert(r@.messages =~= Seq::empty());
        r
    }

    /// The number of records in `table`.
    pub fn count(&self, table: Table) -> (r: usize)
        ensures
            r == self@.count(table),
    {
        match table {
            Table::Config => self.config.len(),
            Table::Entity => self.entity.len(),
            Table::Mob => self.mob.len(),
            Table::MovementComponent => self.movement_component.len(),
            Table::Player => self.player.len(),
            Table::Message => self.message.len(),
            Table::Messages => self.messages.len(),
        }
    }

    /// Stores a batch: clears the batch's table, where it is keyed, and
    /// inserts the batch's records in order. Returns how many were inserted.
    pub fn apply(&mut self, batch: Batch) -> (inserted: usize)
        ensures
            final(self)@ == old(self)@.applied(batch@),
            inserted == batch@.len(),
    {
        match batch {
            Batch::Config(rows) => {
                let n = rows.len();
                self.config = rows;
                n
            },
            Batch::Entity(rows) => {
                let n = rows.len();
                self.entity = rows;
                n
            },
            Batch::Mob(rows) => {
                let n = rows.len();
                self.mob = rows;
                n
            },
            Batch::MovementComponent(rows) => {
                let n = rows.len();
                self.movement_component = rows;
                n
            },
            Batch::Player(rows) => {
                let n = rows.len();
                self.player = rows;
                n
            },
            Batch::Message(rows) => {
                let n = rows.len();
                let mut rows = rows;
                proof {
                    lemma_views_add(self.message@, rows@);
                }
                self.message.append(&mut rows);
                n
            },
            Batch::Messages(rows) => {
                let n = rows.len();
                self.messages = rows;
                n
            },
        }
    }
}

} // verus!
