pub mod network_api;
