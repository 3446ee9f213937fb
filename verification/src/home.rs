pub mod dto;
pub mod home_render;
