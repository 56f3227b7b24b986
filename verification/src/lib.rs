//! View-state projection layer for a peer-to-peer chat client.
//!
//! Given a read-only handle to the shared application state (conversations,
//! identities, favorites), the projector derives a compact, render-ready
//! snapshot of the currently active conversation, or reports an explicit
//! absence when the state is not ready. A companion builder packages the
//! validation rules for the conversation-rename input field.

pub mod chat_data;
pub mod identity;
pub mod input_options;
pub mod state;

pub use chat_data::ChatData;
pub use identity::{Identity, IdentityPlatform, Platform};
pub use input_options::{get_input_options, Options, SpecialCharsAction, Validation};
pub use state::{Chat, ConversationType, State};
