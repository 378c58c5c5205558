use vstd::prelude::*;

verus! {

/// Where the gateway listens and where the backend services are found.
#[derive(Debug)]
pub struct Config {
    pub host: String,
    pub port: u16,
    pub metrics_addr: String,
    pub service_discovery: ServiceDiscoveryConfig,
}

/// Addresses of the backend services.
#[derive(Debug)]
pub struct ServiceDiscoveryConfig {
    pub auth_service: String,
    pub user_service: String,
    pub post_service: String,
    pub media_service: String,
    pub chat_service: String,
}

} // verus!
