pub mod contacts;
