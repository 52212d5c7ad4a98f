//! Runtime core of an e-reader application: a serialized event loop over a
//! hierarchical view tree, a damage-tracking refresh scheduler for an e-ink
//! display whose update primitive is a slow token-issuing hardware
//! operation, and a power-state machine coordinating suspend, wake and
//! USB-mass-storage mounting with persistence.

pub mod context;
pub mod dispatch;
pub mod event;
pub mod geom;
pub mod ledger;
pub mod merger;
pub mod power;
pub mod remarkable;
pub mod view_tree;

pub use dispatch::CoreState;
pub use geom::Rectangle;
pub use remarkable::RemarkableFramebuffer;
