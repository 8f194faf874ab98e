//! The typed records that rows decode into.

use vstd::prelude::*;

verus! {

/// A three-dimensional vector. Each component is a double-precision number,
/// held as its IEEE-754 bit pattern.
#[derive(Clone, Copy, Debug, PartialEq, Eq, Structural)]
pub struct DbVector3 {
    pub x: u64,
    pub y: u64,
    pub z: u64,
}

/// An opaque identity: the bytes that its hexadecimal form stands for.
#[derive(Clone, Debug, PartialEq, Eq)]
pub struct Identity {
    pub bytes: Vec<u8>,
}

impl View for Identity {
    type V = Seq<u8>;

    open spec fn view(&self) -> Seq<u8> {
        self.bytes@
    }
}

/// A point in time, counted in microseconds from the Unix epoch. A negative
/// count lies before the epoch.
#[derive(Clone, Copy, Debug, PartialEq, Eq, Structural)]
pub struct Timestamp {
    pub micros_since_unix_epoch: i64,
}

/// The world configuration. Only the record with `id` 0 is ever stored.
#[derive(Clone, Copy, Debug, PartialEq, Eq, Structural)]
pub struct Config {
    pub id: u32,
    pub world_size: u64,
}

/// An entity and where it is.
#[derive(Clone, Copy, Debug, PartialEq, Eq, Structural)]
pub struct Entity {
    pub entity_id: u32,
    pub position: DbVector3,
}

/// A mobile entity. `speed` is a double-precision number, held as its
/// IEEE-754 bit pattern.
#[derive(Clone, Copy, Debug, PartialEq, Eq, Structural)]
pub struct Mob {
    pub entity_id: u32,
    pub speed: u64,
}

/// An entity in motion. `speed` is a double-precision number, held as its
/// IEEE-754 bit pattern.
#[derive(Clone, Copy, Debug, PartialEq, Eq, Structural)]
pub struct MovementComponent {
    pub entity_id: u32,
    pub direction: DbVector3,
    pub speed: u64,
}

/// A player, keyed by identity.
#[derive(Clone, Debug, PartialEq, Eq)]
pub struct Player {
    pub identity: Identity,
    pub player_id: u32,
    pub name: String,
    pub entity_id: Option<u32>,
}

/// The mathematical value of a [`Player`].
pub ghost struct PlayerView {
    pub identity: Seq<u8>,
    pub player_id: u32,
    pub name: Seq<char>,
    pub entity_id: Option<u32>,
}

/// A message in the table without a primary key.
#[derive(Clone, Debug, PartialEq, Eq)]
pub struct Message {
    pub sender: Identity,
    pub sent: Timestamp,
    pub text: String,
    pub sender_name: String,
}

/// The mathematical value of a [`Message`].
pub ghost struct MessageView {
    pub sender: Seq<u8>,
    pub sent: Timestamp,
    pub text: Seq<char>,
    pub sender_name: Seq<char>,
}

/// A message keyed by `id`.
#[derive(Clone, Debug, PartialEq, Eq)]
pub struct Messages {
    pub id: u64,
    pub sender: Identity,
    pub sent: Timestamp,
    pub text: String,
    pub sender_name: String,
}

/// The mathematical value of a [`Messages`] record.
pub ghost struct MessagesView {
    pub id: u64,
    pub sender: Seq<u8>,
    pub sent: Timestamp,
    pub text: Seq<char>,
    pub sender_name: Seq<char>,
}

impl View for Config {
    type V = Config;

    open spec fn view(&self) -> Config {
        *self
    }
}

impl View for Entity {
    type V = Entity;

    open spec fn view(&self) -> Entity {
        *self
    }
}

impl View for Mob {
    type V = Mob;

    open spec fn view(&self) -> Mob {
        *self
    }
}

impl View for MovementComponent {
    type V = MovementComponent;

    open spec fn view(&self) -> MovementComponent {
        *self
    }
}

impl View for Player {
    type V = PlayerView;

    open spec fn view(&self) -> PlayerView {
        PlayerView {
            identity: self.identity@,
            player_id: self.player_id,
            name: self.name@,
            entity_id: self.entity_id,
        }
    }
}

impl View for Message {
    type V = MessageView;

    open spec fn view(&self) -> MessageView {
        MessageView {
            sender: self.sender@,
            sent: self.sent,
            text: self.text@,
            sender_name: self.sender_name@,
        }
    }
}

impl View for Messages {
    type V = MessagesView;

    open spec fn view(&self) -> MessagesView {
        MessagesView {
            id: self.id,
            sender: self.sender@,
            sent: self.sent,
            text: self.text@,
            sender_name: self.sender_name@,
        }
    }
}

} // verus!
