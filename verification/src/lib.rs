//! Decision logic of a command-line client for a screen-clip service.
//!
//! Every function here works on plain values: the surrounding program reads
//! prompts, sockets and HTTP responses, hands the values in, and performs the
//! action that comes back.
//!
//! The login is the heart of it. `listener` is the loopback listener that
//! takes the browser's callback, `callback` reads what the callback
//! carries, and `coordinator` runs one attempt from the start of the
//! listener to a session, the second-factor challenge or a failure.
//! `password`, `two_factor`, `enroll` and `register` are the dialogues with
//! the user and the service, all in the vocabulary of `flow`.
//!
//! Around it stand the clips (`clip`, `order`, `manage`, `manager`,
//! `clip_ops`, `edit`, `share`), the desktop (`audio`, `autostart`,
//! `command`) and the checks on what the user types (`validate`,
//! `number`). `text`, `split`, `ascii` and `decimal` are the ground they
//! stand on: texts as sequences of characters.
//!
//! Four things are taken from other crates and believed, not proved: what
//! `serde_json` reads out of a document (`json`), what `urlencoding` makes
//! of a text (`urlencode`), what `regex` captures (`audio`) and what `uuid`
//! takes for an id (`share`). Two come from the standard library: the
//! lower case of a text (`order`) and the pushing of a character onto a
//! string (`text`).

pub mod ascii;
pub mod audio;
pub mod autostart;
pub mod callback;
pub mod clip;
pub mod clip_ops;
pub mod command;
pub mod coordinator;
pub mod decimal;
pub mod edit;
pub mod enroll;
pub mod error;
pub mod flow;
pub mod json;
pub mod listener;
pub mod login;
pub mod manage;
pub mod manager;
pub mod model;
pub mod number;
pub mod order;
pub mod password;
pub mod register;
pub mod share;
pub mod split;
pub mod text;
pub mod two_factor;
pub mod urlencode;
pub mod validate;
