//! Messages as TAK products write them: typed detail for markers, defaults for new messages,
//! and a heuristic that tells the common kinds of message apart.

pub mod create;
pub mod detail;
pub mod detect;
