//! Boundary layer between a host runtime and a compile pipeline: owning
//! transfer buffers, the flat outcome of one pipeline run, the decisions
//! between the pipeline's stages, and the release of an outcome.
pub mod outcome;
pub mod pipeline;
pub mod transfer;

pub use outcome::free_jsparagus;
pub use outcome::EmitOutput;
pub use outcome::JsparagusError;
pub use outcome::JsparagusResult;
pub use outcome::OutcomeKind;
pub use pipeline::after_emit;
pub use pipeline::after_parse;
pub use pipeline::decode_source;
pub use pipeline::Decision;
pub use pipeline::EmitStatus;
pub use pipeline::ParseStatus;
pub use pipeline::Step;
pub use transfer::CVec;
