//! Settings given on the command line, and how the environment fills in
//! what the command line leaves open.

use vstd::prelude::*;
use vstd::string::*;
use crate::config::{Config, OneOrMany, SrvConfig};
use crate::pg_config::{is_postgresql_string, or_else, spec_is_postgresql_string, PgConfig};
use crate::text::{i32_of_text, parse_i32};

verus! {

/// What the command line says.
#[derive(Clone, Debug, PartialEq, Eq)]
pub struct Args {
    pub arg_connection: Option<String>,
    pub flag_config: Option<String>,
    pub flag_help: bool,
    pub flag_keep_alive: Option<usize>,
    pub flag_listen_addresses: Option<String>,
    pub flag_pool_size: Option<u32>,
    pub flag_watch: bool,
    pub flag_version: bool,
    pub flag_workers: Option<usize>,
    pub flag_default_srid: Option<i32>,
    pub flag_ca_root_file: Option<String>,
    pub flag_danger_accept_invalid_certs: bool,
}

/// What the environment says. A variable that is not set, or whose value is
/// no text, is `None`.
#[derive(Clone, Debug, PartialEq, Eq)]
pub struct EnvValues {
    /// Value of `DATABASE_URL`.
    pub database_url: Option<String>,
    /// Value of `DEFAULT_SRID`.
    pub default_srid: Option<String>,
    /// Value of `CA_ROOT_FILE`.
    pub ca_root_file: Option<String>,
    /// Whether `DANGER_ACCEPT_INVALID_CERTS` is set, to whatever value.
    pub danger_accept_invalid_certs: bool,
    /// Whether `WATCH_MODE` is set, to whatever value.
    pub watch_mode: bool,
}

/// A setting that is given and ignored, and worth a warning.
#[derive(Clone, Copy, Debug, PartialEq, Eq, Hash, Structural)]
pub enum IgnoredSetting {
    /// The flag `--watch`.
    WatchFlag,
    /// The variable `WATCH_MODE`.
    WatchMode,
}

/// The reference system that the environment names, where it names one
/// that is a number.
pub open spec fn spec_env_srid(default_srid: Option<String>) -> Option<i32> {
    match default_srid {
        Some(text) => i32_of_text(text@),
        None => None,
    }
}

/// The command line with the environment behind it: the command line goes
/// first, and the environment fills in what it leaves open.
pub open spec fn spec_parse_env(args: Args, env: EnvValues) -> Args {
    Args {
        arg_connection: or_else(args.arg_connection, env.database_url),
        flag_default_srid: or_else(args.flag_default_srid, spec_env_srid(env.default_srid)),
        flag_ca_root_file: or_else(args.flag_ca_root_file, env.ca_root_file),
        flag_danger_accept_invalid_certs: args.flag_danger_accept_invalid_certs
            || env.danger_accept_invalid_certs,
        ..args
    }
}

/// Fills in from the environment what the command line leaves open.
pub fn parse_env(args: Args, env: EnvValues) -> (merged: Args)
    ensures
        merged == spec_parse_env(args, env),
{
    let env_srid: Option<i32> = match &env.default_srid {
        Some(text) => parse_i32(text.as_str()),
        None => None,
    };
    let mut merged = args;
    if merged.arg_connection.is_none() {
        merged.arg_connection = env.database_url;
    }
    if merged.flag_default_srid.is_none() {
        merged.flag_default_srid = env_srid;
    }
    if merged.flag_ca_root_file.is_none() {
        merged.flag_ca_root_file = env.ca_root_file;
    }
    merged.flag_danger_accept_invalid_certs = merged.flag_danger_accept_invalid_certs
        || env.danger_accept_invalid_certs;
    merged
}

/// The database that the command line describes, reached by `connection`.
pub open spec fn spec_pg_of_args(args: Args, connection: String) -> PgConfig {
    PgConfig {
        connection_string: Some(connection),
        ca_root_file: args.flag_ca_root_file,
        danger_accept_invalid_certs: args.flag_danger_accept_invalid_certs,
        default_srid: args.flag_default_srid,
        pool_size: args.flag_pool_size,
        auto_tables: None,
        auto_functions: None,
        tables: None,
        functions: None,
        run_autodiscovery: false,
    }
}

impl Args {
    /// What the command line says, as a layer of configuration, and the
    /// path of a tile archive where the connection names one. A connection
    /// that starts like the address of a PostgreSQL database is the
    /// database to publish; any other connection is taken for the path of
    /// a tile archive.
    pub fn into_config(self) -> (layer: (Config, Option<String>))
        ensures
            layer.0.srv == (SrvConfig {
                keep_alive: self.flag_keep_alive,
                listen_addresses: self.flag_listen_addresses,
                worker_processes: self.flag_workers,
            }),
            layer.0.unrecognized@.len() == 0,
            match self.arg_connection {
                Some(connection) => if spec_is_postgresql_string(connection@) {
                    &&& layer.0.postgres == Some(OneOrMany::One(spec_pg_of_args(self, connection)))
                    &&& layer.1 is None
                } else {
                    &&& layer.0.postgres is None
                    &&& layer.1 == Some(connection)
                },
                None => layer.0.postgres is None && layer.1 is None,
            },
    {
        let mut config = Config::new();
        config.srv.keep_alive = self.flag_keep_alive;
        config.srv.listen_addresses = self.flag_listen_addresses;
        config.srv.worker_processes = self.flag_workers;
        match self.arg_connection {
            Some(connection) => {
                if is_postgresql_string(connection.as_str()) {
                    let mut pg = PgConfig::new();
                    pg.connection_string = Some(connection);
                    pg.ca_root_file = self.flag_ca_root_file;
                    pg.danger_accept_invalid_certs = self.flag_danger_accept_invalid_certs;
                    pg.default_srid = self.flag_default_srid;
                    pg.pool_size = self.flag_pool_size;
                    config.postgres = Some(OneOrMany::One(pg));
                    (config, None)
                } else {
                    (config, Some(connection))
                }
            },
            None => (config, None),
        }
    }
}

/// The settings that are given and ignored: the flag first.
pub open spec fn spec_ignored_settings(flag_watch: bool, watch_mode: bool) -> Seq<IgnoredSetting> {
    (if flag_watch {
        seq![IgnoredSetting::WatchFlag]
    } else {
        Seq::empty()
    }) + (if watch_mode {
        seq![IgnoredSetting::WatchMode]
    } else {
        Seq::empty()
    })
}

/// The settings that are given and ignored.
pub fn ignored_settings(args: &Args, env: &EnvValues) -> (ignored: Vec<IgnoredSetting>)
    ensures
        ignored@ == spec_ignored_settings(args.flag_watch, env.watch_mode),
{
    let mut ignored: Vec<IgnoredSetting> = Vec::new();
    if args.flag_watch {
        ignored.push(IgnoredSetting::WatchFlag);
    }
    if env.watch_mode {
        ignored.push(IgnoredSetting::WatchMode);
    }
    assert(ignored@ =~= spec_ignored_settings(args.flag_watch, env.watch_mode));
    ignored
}

} // verus!
