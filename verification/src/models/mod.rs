pub mod channel;
pub mod clock;
pub mod contact;
pub mod message;

pub use channel::{Channel, ChannelType, ChannelView};
pub use contact::{Contact, ContactView};
pub use message::{Message, MessageView};
