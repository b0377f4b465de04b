//! A chat-driven game economy: chat participants gather points and wager
//! them in trivia duels.
//!
//! The library is the engine of the game. It holds the accounts, the duels
//! and the question bank in an in-memory [`db::Store`], keeps the
//! challenges that await acceptance in a [`state::State`], and turns every
//! chat message into the state after it and the messages to send in return
//! ([`messaging::on_msg`]). Reading the chat, sending the answers and
//! keeping the store on disk are left to the program around it.
//!
//! Every function carries a contract over the mathematical model of the
//! data: the view of a record replaces its strings by sequences of
//! characters and its machine integers by mathematical ones, and the view
//! of the store is the sequence of the record views of each table.
//!
//! What the library guarantees beyond the single contracts:
//!
//! - no balance ever lies below the floor of -1000 points
//!   ([`chatter::lemma_floor_is_never_breached`]);
//! - nobody duels themselves ([`commands::lemma_self_duel_is_refused`]),
//!   and nobody wagers more than they have
//!   ([`commands::lemma_overdrawn_wager_is_refused`]);
//! - challenges of one pair are accepted in the order of their issue
//!   ([`state::lemma_first_in_first_out`]);
//! - a duel only ever moves forward, from challenged to accepted to
//!   completed, and a completed duel never changes again
//!   ([`messaging::lemma_messages_move_duels_on`]);
//! - a duel has its row among the duels under way exactly while it is
//!   accepted ([`consistency::lemma_messages_keep_fitting`]), and nobody is
//!   in two such duels at once ([`db::accepted_wf`]);
//! - a stale duel gives way to a new challenge
//!   ([`commands::lemma_stale_duel_gives_way`]).

pub mod chatter;
pub mod commands;
pub mod consistency;
pub mod content;
pub mod db;
pub mod duel;
pub mod helpers;
pub mod messaging;
pub mod models;
pub mod search;
pub mod seed;
pub mod state;
pub mod text;
