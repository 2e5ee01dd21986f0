//! Move-by-move annotation of finished chess games: tokenising the move
//! text, labelling every move, keeping a running evaluation, recommending
//! alternatives for weak moves, and summarising the game.

pub mod analysis;
pub mod board;
pub mod book;
pub mod classify;
pub mod coach;
pub mod comment;
pub mod engine;
pub mod games;
pub mod lessons;
pub mod models;
pub mod moments;
pub mod openings;
pub mod pgn;
pub mod position;
pub mod recommend;
pub mod summary;
pub mod text;
