pub mod channel_handlers;
pub mod contact_handlers;
pub mod message_handlers;

pub use channel_handlers::{ChannelError, ChannelService};
pub use contact_handlers::ContactService;
pub use message_handlers::{MessageError, MessageService};
