//! Verified core of GreptimeDB components: region instructions, procedure errors,
//! system function registration, aggregate function signatures, and the decolorize
//! pipeline processor.

pub mod value;
pub mod ansi;
pub mod yaml;
pub mod pipeline;
pub mod decolorize;
pub mod status_code;
pub mod procedure_error;
pub mod system;
pub mod text;
pub mod instruction;
pub mod logical_plan;
