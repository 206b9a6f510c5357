//! Verified core of a blockchain whose blocks are sealed by recorded Mario 64
//! gameplay: block limits and seeds, the chain-adoption walk, replay byte
//! formats, controller pads and the recording decisions.

pub mod config;
pub mod buttons;
pub mod digest;
pub mod hash;
pub mod block;
pub mod sync;
pub mod gamepad;
pub mod text;
pub mod timestamp;
pub mod replay;
pub mod game_state;
pub mod replay_check;
pub mod client;
pub mod ticket;
pub mod web;
pub mod info_file;
pub mod record;
pub mod legacy;
pub mod input_gen;
pub mod tags;
