pub mod request_context;
