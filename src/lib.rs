//! The data model of a chess set shown on a board: the 8×8 grid of squares
//! with its checkerboard colouring, the pieces of the opening position, and
//! the fixed visual parts that make up each kind of piece.

pub mod board;
pub mod pieces;
pub mod parts;
