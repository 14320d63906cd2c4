pub mod http_status;
