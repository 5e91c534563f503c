use vstd::prelude::*;

pub mod common;
pub mod nooid;
pub mod value;
pub mod value_tools;
pub mod table;
pub mod selections;
pub mod server_table;
pub mod component_list;
pub mod types;
pub mod components;
pub mod client_messages;
pub mod recording;
pub mod recorder;
pub mod server_communication;
pub mod buffer_builder;
pub mod client_table;
pub mod client_state;
pub mod root_message;
pub mod mapped_client;
pub mod invoke;
pub mod client_components;
pub mod table_protocol;
pub mod component_codec;
pub mod message_codec;
pub mod client_dispatch;
pub mod replay;
pub mod cli_state;
pub mod table_delegate;
pub mod announce;
pub mod state_codec;
pub mod server_components;
pub mod server_state;
pub mod table_store;
pub mod cbor;

verus! {
} // verus!
