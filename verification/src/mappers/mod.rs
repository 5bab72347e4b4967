pub mod mapper;
pub mod mapper0;
