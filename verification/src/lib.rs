//! A message-in-a-bottle service for chat servers: bottles are pushed from one
//! channel and washed up in others, with replies, reports, bans and experience.
pub mod text;
pub mod model;
pub mod push;
pub mod react;
pub mod bottle;
pub mod deliver;
pub mod web;
pub mod pages;
