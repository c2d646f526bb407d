//! Client-side session logic for a multiplayer item-exchange protocol:
//! the message codec, the catalog cache, the transport worker's decisions
//! and the engine that reconciles server messages with the session state
//! (`archipelago`). Beside it stand the generator of the recipe graph
//! (`graph`), what the playfield asks of recipes and elements (`game`), and
//! the description of a sprite atlas (`atlas`).

pub mod archipelago;
pub mod atlas;
pub mod game;
pub mod graph;
