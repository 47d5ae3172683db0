//! The rules of an electronic chessboard: what its sensors, its moves and its radio link mean.

pub mod ble;
pub mod board;
pub mod display;
pub mod game;
pub mod piece;
pub mod sensor;
pub mod squares;
pub mod storage;
pub mod tracker;
