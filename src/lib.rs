//! A growing, append-only list of items kept in step with a windowed view
//! that is rebuilt on every change while the scroll position is carried over,
//! together with the decision logic of a background producer of items.

pub mod item;
pub mod laws;
pub mod placement;
pub mod producer;
pub mod state;
pub mod sync;
pub mod window;

pub use item::{ItemView, ListItem};
pub use placement::{PixelBounds, placement_in_range, setup_window};
pub use producer::{ProducerAction, ProducerEvent, ProducerLoop, ProducerPhase};
pub use state::{ListError, Notification, State, Subscription};
pub use sync::Main;
pub use window::WindowState;
