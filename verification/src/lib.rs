//! Configuration of a store node: where its content database lives, how its
//! RPC endpoint is reached, and how the whole is flattened into one layer of
//! a hierarchical configuration.

pub mod addr;
pub mod error;
pub mod path;
pub mod store;
pub mod table;

pub use crate::addr::{
    SocketAddress, SocketAddressV4, SocketAddressV6, StoreClientAddr, StoreServerAddr,
    DEFAULT_GRPC_PORT,
};
pub use crate::error::Error;
pub use crate::store::{Config, MetricsConfig, RpcClientConfig, CONFIG_FILE_NAME, ENV_PREFIX};
pub use crate::table::Table;
