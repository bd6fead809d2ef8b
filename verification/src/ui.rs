pub mod components;
pub mod page;
pub mod router;
