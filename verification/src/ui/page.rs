pub mod chat;
pub mod direct;
pub mod landing;
pub mod rating;
pub mod rooms_menu;
