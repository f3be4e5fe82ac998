//! A merged order book built from exchange depth feeds, with the
//! decisions of the streaming service stated as contracts.
pub mod book;
pub mod data_providers;
pub mod grpc_server;
pub mod net_utils;
pub mod order_book_stream;
pub mod price;
pub mod types;
