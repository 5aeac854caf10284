//! The logic of a client for the [Board Game Geek XML API](https://boardgamegeek.com/wiki/page/BGG_XML_API2),
//! with its behaviour stated in contracts and proved.
//!
//! - Queries: one module per endpoint (`accessory`, `collection`, `forum`, `forum_group`,
//!   `game`, `game_family`, `guild`, `plays`, `search`, `thread`, `user`) builds the key and
//!   value pairs of a request from its parameters, on top of `query`, `text` and `date`.
//! - Replies: `decode` holds the errors met while the fields of an XML object are gathered
//!   and the parsing of field texts; `media`, `version`, `details`, `accessory_details`,
//!   `listings`, `user_details`, `collection_items`, `polls` and `ranks` gather the objects of
//!   each endpoint; `timestamps` reads dates with chrono; `escape` escapes ampersands.
//! - Requests: `retry` decides how a request is retried while the API prepares the data,
//!   `response` picks the requested item or filters a collection, and `error` maps the API's
//!   error replies.

use vstd::prelude::*;

pub mod text;
pub mod models;
pub mod query;
pub mod date;
pub mod wishlist;
pub mod error;
pub mod retry;
pub mod response;

pub mod accessory;
pub mod game;
pub mod guild;
pub mod user;
pub mod forum;
pub mod forum_group;
pub mod game_family;
pub mod search;
pub mod plays;
pub mod thread;
pub mod collection;
pub mod escape;
pub mod decode;
pub mod polls;
pub mod ranks;
pub mod media;
pub mod version;
pub mod details;
pub mod accessory_details;
pub mod listings;
pub mod user_details;
pub mod collection_items;
pub mod timestamps;
