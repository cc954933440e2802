//! A worker that sits behind a line protocol: it loads and caches models,
//! runs inference at once or as a stream of tokens, and answers one request
//! after the other.
//!
//! The library decides and keeps state; its caller reads and writes the
//! byte streams, reads model files and runs background producers. Every
//! function states what it returns and changes, and is proved to do so.

pub mod ai_core;
pub mod cache;
pub mod clock;
pub mod command;
pub mod config;
pub mod errors;
pub mod handler;
pub mod inference;
pub mod io;
pub mod json;
pub mod model_loader;
pub mod protocol;
pub mod service;
pub mod streaming;
pub mod text;


pub use crate::ai_core::{AiCore, AiStats, InferenceResult, ModelInfo};
pub use crate::cache::{Cache, CacheStats};
pub use crate::command::{Command, CommandResult};
pub use crate::config::Config;
pub use crate::errors::{AiCoreError, Context, IpcError, ProtocolError};
pub use crate::handler::{IpcHandler, IpcStats};
pub use crate::inference::InferenceEngine;
pub use crate::io::{InputReader, MockReader, MockWriter, OutputWriter, Reader, Writer};
pub use crate::json::Json;
pub use crate::model_loader::{Model, ModelFormat, ModelLoader};
pub use crate::protocol::{ErrorInfo, Request, Response, ResponseStatus};
pub use crate::service::AiService;
pub use crate::streaming::{
    StreamConfig, StreamEvent, StreamingEngine, Token, TokenProducer, TokenStream,
};
