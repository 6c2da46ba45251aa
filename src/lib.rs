//! Degree audit engine: matches transcript records against a curriculum tree
//! and reports credits per category, missing requirements, and which
//! requirement each record satisfied.

pub mod audit;
pub mod curriculum;
pub mod free;
pub mod gen_ed;
pub mod laws;
pub mod major;
pub mod matching;
pub mod models;
pub mod parser;
pub mod rules;
pub mod text;

pub use audit::audit_transcript;
pub use curriculum::{get_gen_ed_curriculum, get_major_curriculum};
pub use free::calculate_free_electives;
pub use gen_ed::audit_gen_ed;
pub use major::audit_major;
pub use parser::parse_transcript;
