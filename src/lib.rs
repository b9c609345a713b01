//! Request translation for a small HTTP gateway in front of a vector database.
//!
//! The library decides what the gateway sends upstream and what it answers:
//! it frames the JSON bodies of outbound calls, reads the fields it needs out
//! of upstream replies, allocates sequence numbers from a stored counter, and
//! applies the owner and visibility rules of the item routes. Sending and
//! receiving is left to the caller.

pub mod chats;
pub mod error;
pub mod items;
pub mod json;
pub mod qdrant;
pub mod reply;
pub mod search;
pub mod util;
