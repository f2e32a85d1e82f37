pub mod base;
pub mod channel_repository;
pub mod contact_repository;
pub mod in_memory;
pub mod lookup;
pub mod message_repository;
pub mod mongo;
pub mod object_id;

pub use base::{IdType, IdView, Model, Repository, RepositoryError};
pub use in_memory::repository::{
    mock_channel_repo, mock_contact_repo, mock_message_repo, mock_repo, InMemoryRepository,
};
pub use object_id::ObjectId;
