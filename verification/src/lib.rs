//! The session backend of a terminal emulator.
//!
//! A session owns the geometry of its terminal, a snapshot of what the
//! terminal model shows, and the rules by which commands from the presentation
//! layer become changes to the model and requests to the shell process.

pub mod backend;
pub mod command;
pub mod escape;
pub mod model;
pub mod mouse;
pub mod size;

pub use backend::Backend;
pub use backend::BackendView;
pub use backend::RenderableContent;
pub use command::Action;
pub use command::BackendCommand;
pub use command::ModelEvent;
pub use command::Outcome;
pub use command::PtyRequest;
pub use model::EventProxy;
pub use mouse::LinkAction;
pub use mouse::MouseButton;
pub use mouse::MouseMode;
pub use mouse::Point;
pub use size::Geometry;
pub use size::Size;
pub use size::TerminalSize;
pub use size::WindowSize;
