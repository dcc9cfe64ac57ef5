//! Conversion of chess games into training records for a policy network.
//!
//! A game is followed move by move. For each half-move of its main line one
//! state is recorded: the position before the move, and a policy target that
//! gives every legal move its index in the network's action space and the
//! move played the probability 1. When the game ends, its states and its
//! winner are laid out as one document and compressed.
//!
//! - `moves`: moves and their packed codes.
//! - `notation`: the notation of an action-space list.
//! - `table`: the table from packed codes to policy indices.
//! - `board`, `position`: pieces on squares, and the record of a position.
//! - `policy`: the policy target.
//! - `record`: the records of a game.
//! - `fen`: starting positions given as FEN text.
//! - `chunk`: the accumulator that follows a game.
//! - `document`: the document of a game and its compression.
//! - `naming`: the name of a game's file.
//! - `rules`, `codec`: what is taken from the crates `shakmaty`,
//!   `flatbuffers` and `flate2`, as stated and not proved.
//! - `fault`: the conditions that end a conversion.

pub mod board;
pub mod chunk;
pub mod codec;
pub mod document;
pub mod fault;
pub mod fen;
pub mod moves;
pub mod naming;
pub mod notation;
pub mod policy;
pub mod position;
pub mod record;
pub mod rules;
pub mod table;
