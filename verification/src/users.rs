pub mod dto;
pub mod object_id;
pub mod users_controller;
pub mod users_model;
pub mod users_repository;
pub mod users_service;
