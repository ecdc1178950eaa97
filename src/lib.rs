//! Display topology introspection: rendering of display records as text,
//! decoding of tool arguments, and the decisions of the tool dispatcher.

pub mod diagonal;
pub mod dispatch;
pub mod laws;
pub mod params;
pub mod record;
pub mod render;
pub mod text;
