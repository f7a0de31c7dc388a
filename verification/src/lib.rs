//! A terminal bar-chart library: a fluent configuration builder that produces
//! an immutable plot descriptor, and a render engine that lays numeric data
//! out as colored horizontal bars and redraws frames in place with cursor
//! repositioning. Rendering is a pure function of the plot state: each draw
//! appends the frame's exact character sequence to a caller-supplied buffer.

pub mod color;
pub mod frame;
pub mod graph_builder;
pub mod laws;
pub mod term;
pub mod text;
