//! The configuration of a store node.

use crate::addr::{SocketAddress, StoreClientAddr, StoreServerAddr, DEFAULT_GRPC_PORT};
use crate::error::Error;
use crate::path::{path_text, path_to_str};
use crate::table::{
    insert_table, insert_text, table_new, table_setting, table_view, text_setting, Setting, Table,
};
use std::path::PathBuf;
use vstd::prelude::*;

verus! {

/// The name of the optional configuration file of a store.
pub const CONFIG_FILE_NAME: &'static str = "store.config.toml";

/// The prefix of the environment variables that set a field of the
/// configuration: `IROH_STORE_PATH` sets `path`.
pub const ENV_PREFIX: &'static str = "IROH_STORE";

/// How the services of a node are addressed for RPC, as far as a store reads
/// it: the address of the store.
#[derive(Debug, PartialEq, Eq)]
pub struct RpcClientConfig {
    /// The address at which clients reach the store, if one is configured.
    pub store_addr: Option<StoreClientAddr>,
}

/// How metrics are exported. The block belongs to the metrics subsystem: a
/// store configuration has a place for it and reads nothing of it.
#[derive(Debug, PartialEq, Eq)]
pub struct MetricsConfig {}

/// The configuration for the store.
#[derive(Debug, PartialEq, Eq)]
pub struct Config {
    /// The location of the content database.
    pub path: PathBuf,
    pub rpc_client: RpcClientConfig,
    pub metrics: MetricsConfig,
}

impl Default for RpcClientConfig {
    fn default() -> (r: Self)
        ensures
            r == (RpcClientConfig { store_addr: None }),
    {
        RpcClientConfig { store_addr: None }
    }
}

impl Clone for RpcClientConfig {
    fn clone(&self) -> (r: Self)
        ensures
            r == *self,
    {
        let store_addr = match &self.store_addr {
            Some(addr) => Some(addr.clone()),
            None => None,
        };
        RpcClientConfig { store_addr }
    }
}

impl Default for MetricsConfig {
    fn default() -> (r: Self)
        ensures
            r == (MetricsConfig {}),
    {
        MetricsConfig {}
    }
}

impl Clone for MetricsConfig {
    fn clone(&self) -> (r: Self)
        ensures
            r == *self,
    {
        MetricsConfig {}
    }
}

/// The listen address that a configured client address gives: none where no
/// address is configured, the same description for a network address, and a
/// failure for a channel inside the process.
pub open spec fn derived_server_addr(store_addr: Option<StoreClientAddr>) -> Result<
    Option<StoreServerAddr>,
    Error,
> {
    match store_addr {
        None => Ok(None),
        Some(addr) => match addr.listen_addr() {
            Some(server) => Ok(Some(server)),
            None => Err(Error::MemAddr),
        },
    }
}

/// The three keys of a flattened store configuration.
pub open spec fn top_level_keys() -> Set<Seq<char>> {
    set!["path"@, "rpc_client"@, "metrics"@]
}

/// A store configuration as one table: the path as text under `path`, and
/// the table of each nested block under `rpc_client` and `metrics`, as its
/// owner flattened it.
pub open spec fn flattened(
    path: Seq<char>,
    rpc_client: Map<Seq<char>, Setting>,
    metrics: Map<Seq<char>, Setting>,
) -> Map<Seq<char>, Setting> {
    Map::empty().insert("path"@, text_setting(path)).insert(
        "rpc_client"@,
        table_setting(rpc_client),
    ).insert("metrics"@, table_setting(metrics))
}

impl Config {
    /// The configuration that `new_with_rpc` builds.
    pub open spec fn spec_new_with_rpc(path: PathBuf, client_addr: StoreClientAddr) -> Config {
        Config {
            path,
            rpc_client: RpcClientConfig { store_addr: Some(client_addr) },
            metrics: MetricsConfig {},
        }
    }

    /// The configuration that `new_grpc` builds.
    pub open spec fn spec_new_grpc(path: PathBuf) -> Config {
        Self::spec_new_with_rpc(path, StoreClientAddr::spec_default_grpc())
    }

    /// A configuration with the given path, with `client_addr` as the address
    /// of the store and every other setting at its default.
    pub fn new_with_rpc(path: PathBuf, client_addr: StoreClientAddr) -> (r: Self)
        ensures
            r == Self::spec_new_with_rpc(path, client_addr),
            r.path == path,
            r.rpc_client.store_addr == Some(client_addr),
    {
        let mut rpc_client = RpcClientConfig::default();
        rpc_client.store_addr = Some(client_addr);
        Config { path, rpc_client, metrics: MetricsConfig::default() }
    }

    /// A configuration with the given path whose store is reached at the
    /// well-known network address.
    pub fn new_grpc(path: PathBuf) -> (r: Self)
        ensures
            r == Self::spec_new_grpc(path),
            r.path == path,
            r.rpc_client.store_addr == Some(StoreClientAddr::spec_default_grpc()),
    {
        Self::new_with_rpc(path, StoreClientAddr::default_grpc())
    }

    /// Derive server addr for non memory addrs.
    ///
    /// The address that the store service listens on, from the address that
    /// clients connect to: `Ok(None)` where none is configured, the same
    /// description for a network address, and `Error::MemAddr` for a channel
    /// inside the process.
    pub fn server_rpc_addr(&self) -> (r: Result<Option<StoreServerAddr>, Error>)
        ensures
            r == derived_server_addr(self.rpc_client.store_addr),
            self.rpc_client.store_addr is None ==> r matches Ok(None),
            r is Err <==> self.rpc_client.store_addr == Some(StoreClientAddr::Mem),
            r matches Err(e) ==> e == Error::MemAddr,
    {
        match &self.rpc_client.store_addr {
            None => Ok(None),
            Some(StoreClientAddr::GrpcHttp2(addr)) => Ok(Some(StoreServerAddr::GrpcHttp2(*addr))),
            Some(StoreClientAddr::GrpcUds(path)) => Ok(
                Some(StoreServerAddr::GrpcUds(path.clone())),
            ),
            Some(StoreClientAddr::Mem) => Err(Error::MemAddr),
        }
    }

    /// An independent copy of the configuration, owned by the box: every
    /// field of the copy equals the field it was copied from.
    pub fn clone_into_box(&self) -> (r: Box<Config>)
        ensures
            *r == *self,
    {
        Box::new(self.clone())
    }

    /// What `collect` gives for this configuration: the flattened table if
    /// its path is text, and `Error::MissingPath` if not.
    pub open spec fn spec_collect(
        self,
        rpc_client: Map<Seq<char>, Setting>,
        metrics: Map<Seq<char>, Setting>,
    ) -> Result<Map<Seq<char>, Setting>, Error> {
        spec_flatten(path_text(self.path), rpc_client, metrics)
    }

    /// Flattens the configuration into one table with the keys `path`,
    /// `rpc_client` and `metrics`.
    ///
    /// `rpc_client` and `metrics` are the tables into which the nested blocks
    /// were flattened by their owners; each goes in whole under its key. The
    /// path goes in as text, and where it has none the result is
    /// `Error::MissingPath`: there is no other failure.
    pub fn collect(&self, rpc_client: Table, metrics: Table) -> (r: Result<Table, Error>)
        ensures
            r is Ok <==> path_text(self.path) is Some,
            r matches Err(e) ==> e == Error::MissingPath,
            r matches Ok(t) ==> {
                &&& self.spec_collect(table_view(rpc_client), table_view(metrics)) matches Ok(
                    entries,
                ) && entries == table_view(t)
                &&& table_view(t).dom() == top_level_keys()
                &&& table_view(t)["path"@] == text_setting(path_text(self.path).unwrap())
                &&& table_view(t)["rpc_client"@] == table_setting(table_view(rpc_client))
                &&& table_view(t)["metrics"@] == table_setting(table_view(metrics))
            },
    {
        flatten(path_to_str(&self.path), rpc_client, metrics)
    }
}

/// What `flatten` gives: the flattened table where there is a path text, and
/// `Error::MissingPath` where there is none.
pub open spec fn spec_flatten(
    path: Option<Seq<char>>,
    rpc_client: Map<Seq<char>, Setting>,
    metrics: Map<Seq<char>, Setting>,
) -> Result<Map<Seq<char>, Setting>, Error> {
    match path {
        Some(text) => Ok(flattened(text, rpc_client, metrics)),
        None => Err(Error::MissingPath),
    }
}

/// Builds the table of a store configuration from the text of its path, if
/// it has one, and the tables of its two nested blocks.
///
/// With a path text the result is a table of exactly three entries: the text
/// under `path`, and each nested table whole under `rpc_client` and
/// `metrics`. Without one it is `Error::MissingPath`.
pub fn flatten(path: Option<&str>, rpc_client: Table, metrics: Table) -> (r: Result<
    Table,
    Error,
>)
    ensures
        r is Ok <==> path is Some,
        r matches Err(e) ==> e == Error::MissingPath,
        r matches Ok(t) ==> {
            &&& path matches Some(text) && table_view(t) == flattened(
                text@,
                table_view(rpc_client),
                table_view(metrics),
            )
            &&& table_view(t).dom() == top_level_keys()
            &&& table_view(t)["path"@] == text_setting(path.unwrap()@)
            &&& table_view(t)["rpc_client"@] == table_setting(table_view(rpc_client))
            &&& table_view(t)["metrics"@] == table_setting(table_view(metrics))
        },
{
    let text = match path {
        Some(text) => text,
        None => {
            return Err(Error::MissingPath);
        },
    };
    let mut map = table_new();
    insert_text(&mut map, "path", text);
    insert_table(&mut map, "rpc_client", rpc_client);
    insert_table(&mut map, "metrics", metrics);
    proof {
        lemma_flattened_keys(text@, table_view(rpc_client), table_view(metrics));
        lemma_flattened_entries(text@, table_view(rpc_client), table_view(metrics));
    }
    Ok(map)
}

impl Clone for Config {
    fn clone(&self) -> (r: Self)
        ensures
            r == *self,
    {
        Config {
            path: self.path.clone(),
            rpc_client: self.rpc_client.clone(),
            metrics: self.metrics.clone(),
        }
    }
}

/// A flattened store configuration has the three top-level keys and no
/// other.
pub proof fn lemma_flattened_keys(
    path: Seq<char>,
    rpc_client: Map<Seq<char>, Setting>,
    metrics: Map<Seq<char>, Setting>,
)
    ensures
        flattened(path, rpc_client, metrics).dom() == top_level_keys(),
{
    assert(flattened(path, rpc_client, metrics).dom() =~= top_level_keys());
}

/// The three top-level keys differ from each other, so a flattened store
/// configuration has exactly three entries, and each key leads to what was
/// put under it.
pub proof fn lemma_flattened_entries(
    path: Seq<char>,
    rpc_client: Map<Seq<char>, Setting>,
    metrics: Map<Seq<char>, Setting>,
)
    ensures
        "path"@ != "rpc_client"@,
        "path"@ != "metrics"@,
        "rpc_client"@ != "metrics"@,
        top_level_keys().finite(),
        top_level_keys().len() == 3,
        flattened(path, rpc_client, metrics)["path"@] == text_setting(path),
        flattened(path, rpc_client, metrics)["rpc_client"@] == table_setting(rpc_client),
        flattened(path, rpc_client, metrics)["metrics"@] == table_setting(metrics),
{
    reveal_strlit("path");
    reveal_strlit("rpc_client");
    reveal_strlit("metrics");
    assert("path"@.len() == 4);
    assert("rpc_client"@.len() == 10);
    assert("metrics"@.len() == 7);
    assert(top_level_keys() =~= Set::empty().insert("path"@).insert("rpc_client"@).insert(
        "metrics"@,
    ));
}

/// Flattening loses nothing: two store configurations that flatten to the
/// same table have the same path text and the same nested tables. Whatever
/// rebuilds a configuration from its table can therefore find each field
/// again.
pub proof fn lemma_flattened_keeps_every_field(
    path_a: Seq<char>,
    rpc_client_a: Map<Seq<char>, Setting>,
    metrics_a: Map<Seq<char>, Setting>,
    path_b: Seq<char>,
    rpc_client_b: Map<Seq<char>, Setting>,
    metrics_b: Map<Seq<char>, Setting>,
)
    requires
        flattened(path_a, rpc_client_a, metrics_a) == flattened(path_b, rpc_client_b, metrics_b),
    ensures
        path_a == path_b,
        rpc_client_a == rpc_client_b,
        metrics_a == metrics_b,
{
    lemma_flattened_entries(path_a, rpc_client_a, metrics_a);
    lemma_flattened_entries(path_b, rpc_client_b, metrics_b);
    assert(text_setting(path_a) == text_setting(path_b));
    assert(table_setting(rpc_client_a) == table_setting(rpc_client_b));
    assert(table_setting(metrics_a) == table_setting(metrics_b));
}

/// Layering two store configurations that differ only in their path, the
/// later one overriding the earlier key by key, gives the path of the later
/// one and every other entry as the earlier one has it.
pub proof fn lemma_later_layer_overrides_path_only(
    defaults: Config,
    overrides: Config,
    rpc_client: Map<Seq<char>, Setting>,
    metrics: Map<Seq<char>, Setting>,
)
    requires
        defaults.rpc_client == overrides.rpc_client,
        defaults.metrics == overrides.metrics,
        defaults.spec_collect(rpc_client, metrics) is Ok,
        overrides.spec_collect(rpc_client, metrics) is Ok,
    ensures
        ({
            let lower = defaults.spec_collect(rpc_client, metrics).unwrap();
            let upper = overrides.spec_collect(rpc_client, metrics).unwrap();
            let merged = lower.union_prefer_right(upper);
            &&& merged.dom() == top_level_keys()
            &&& merged["path"@] == text_setting(path_text(overrides.path).unwrap())
            &&& merged["rpc_client"@] == lower["rpc_client"@]
            &&& merged["metrics"@] == lower["metrics"@]
            &&& merged == upper
        }),
{
    let lower_path = path_text(defaults.path).unwrap();
    let upper_path = path_text(overrides.path).unwrap();
    let lower = flattened(lower_path, rpc_client, metrics);
    let upper = flattened(upper_path, rpc_client, metrics);
    lemma_flattened_keys(lower_path, rpc_client, metrics);
    lemma_flattened_keys(upper_path, rpc_client, metrics);
    lemma_flattened_entries(lower_path, rpc_client, metrics);
    lemma_flattened_entries(upper_path, rpc_client, metrics);
    assert(lower.union_prefer_right(upper) =~= upper);
}

/// A configuration built with a network address listens where its clients
/// connect: the derived server address is the same socket address, or the
/// same socket path.
pub proof fn lemma_network_addr_is_kept(path: PathBuf, client_addr: StoreClientAddr)
    requires
        client_addr.is_network(),
    ensures
        derived_server_addr(Config::spec_new_with_rpc(path, client_addr).rpc_client.store_addr)
            matches Ok(Some(server)) && Some(server) == client_addr.listen_addr(),
        client_addr matches StoreClientAddr::GrpcHttp2(socket) ==> client_addr.listen_addr()
            == Some(StoreServerAddr::GrpcHttp2(socket)),
        client_addr matches StoreClientAddr::GrpcUds(socket_path) ==> client_addr.listen_addr()
            == Some(StoreServerAddr::GrpcUds(socket_path)),
{
}

/// A configuration built at the well-known network address listens at that
/// address.
pub proof fn lemma_grpc_config_listens_at_default(path: PathBuf)
    ensures
        derived_server_addr(Config::spec_new_grpc(path).rpc_client.store_addr) matches Ok(
            Some(server),
        ) && server == StoreServerAddr::GrpcHttp2(
            SocketAddress::spec_unspecified_v4(DEFAULT_GRPC_PORT),
        ),
{
}

} // verus!
