//! Type-erased handles to the futures and streams of the component model.
//!
//! A component hands out futures and streams whose types a host may not know ahead of time.
//! [`future_any::FutureAny`] and [`stream_any::StreamAny`] are handles to them that keep the type
//! of the payload aside, and check it when it matters: when the handle is turned into a reader of
//! a known Rust type, or is handed to a component.

pub mod component_type;
pub mod count_stream;
pub mod end_laws;
pub mod engine;
pub mod error;
pub mod error_laws;
pub mod future_any;
pub mod future_end;
pub mod future_laws;
pub mod handle_table;
pub mod laws;
pub mod payload;
pub mod producers;
pub mod reader;
pub mod store;
pub mod store_laws;
pub mod stream_any;
pub mod stream_laws;
pub mod tables;
pub mod transmit;
pub mod transmit_type;
pub mod type_laws;
pub mod types;
pub mod val;
