//! Control plane and data plane logic of a hybrid post-quantum VPN.

pub mod admin;
pub mod agent_loop;
pub mod agent_state;
pub mod assets;
pub mod assoc;
pub mod bytes;
pub mod client;
pub mod client_network;
pub mod clock;
pub mod commands;
pub mod configs;
pub mod crypto_logic;
pub mod dashboard;
pub mod decimal;
pub mod dns;
pub mod enrollment;
pub mod heartbeat;
pub mod hex;
pub mod html;
pub mod ipv4;
pub mod json;
pub mod listing;
pub mod management_client;
pub mod models;
pub mod policy;
pub mod pool;
pub mod portal;
pub mod presence;
pub mod primitives;
pub mod security;
pub mod server;
pub mod sessions;
pub mod settings;
pub mod sorting;
pub mod status;
pub mod store;
pub mod text;
pub mod text_map;
pub mod tun;
pub mod tunnel_laws;
pub mod tunnel_protocol;
