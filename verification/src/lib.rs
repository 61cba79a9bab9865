//! A product "lifecycle storyboard" service core: a sequence of named
//! stages per product, each carrying a generation prompt, a narrative
//! description and an optional encoded image, held in a concurrent
//! in-memory store. Generation drives an external model through outcomes
//! supplied by the host; every failure is absorbed into deterministic
//! placeholder or curated fallback content, so workflows fail only on an
//! unknown identifier or an out-of-range stage index.

pub mod gemini;
pub mod models;
pub mod pdf;
pub mod shared;
pub mod store;
pub mod text;
pub mod workflows;
