//! Configuration of the server, put together from several layers: what one
//! layer leaves open, the next may set.

use vstd::prelude::*;
use vstd::string::*;
use crate::pg_config::{or_else, prefixed, push_prefixed, PgConfig, PgError};
use crate::text::{all_distinct, contains_str, views};

verus! {

/// Seconds that an idle connection is kept where nothing else is asked for.
pub const DEFAULT_KEEP_ALIVE: usize = 75;

/// Sets an option that is empty to the value of a second one, where that
/// one has a value.
pub fn set_option<T>(first: &mut Option<T>, second: Option<T>)
    ensures
        *final(first) == or_else(*old(first), second),
{
    if first.is_none() && second.is_some() {
        *first = second;
    }
}

/// Merges two options: where both have a value, `merge` makes one value of
/// the two; else the value that there is stays.
pub fn merge_option<T, F: FnOnce(T, T) -> T>(first: Option<T>, second: Option<T>, merge: F) -> (merged:
    Option<T>)
    requires
        first is Some && second is Some ==> merge.requires((first->0, second->0)),
    ensures
        match (first, second) {
            (Some(a), Some(b)) => merged is Some && merge.ensures((a, b), merged->0),
            (None, Some(b)) => merged == Some(b),
            (a, None) => merged == a,
        },
{
    match (first, second) {
        (Some(a), Some(b)) => Some(merge(a, b)),
        (None, Some(b)) => Some(b),
        (a, None) => a,
    }
}

/// Merging in layers gives each setting the value of the first layer that
/// sets it.
pub proof fn lemma_first_layer_wins<T>(first: Option<T>, second: Option<T>, third: Option<T>)
    ensures
        first is Some ==> or_else(or_else(first, second), third) == first,
        first is None && second is Some ==> or_else(or_else(first, second), third) == second,
        first is None && second is None ==> or_else(or_else(first, second), third) == third,
        or_else(or_else(first, second), third) == or_else(first, or_else(second, third)),
{
}

/// One value or a list of values.
#[derive(Clone, Debug, PartialEq, Eq)]
pub enum OneOrMany<T> {
    One(T),
    Many(Vec<T>),
}

/// Settings of the server itself.
#[derive(Clone, Debug, PartialEq, Eq)]
pub struct SrvConfig {
    /// Seconds that an idle connection is kept.
    pub keep_alive: Option<usize>,
    /// Socket address to listen on.
    pub listen_addresses: Option<String>,
    /// Number of worker processes.
    pub worker_processes: Option<usize>,
}

/// The address that the server listens on where nothing else is asked for.
pub open spec fn default_listen_addresses() -> Seq<char> {
    "0.0.0.0:3000"@
}

impl SrvConfig {
    /// The settings that have of each what `self` has, and what `other` has
    /// where `self` has nothing.
    pub open spec fn spec_merge(self, other: SrvConfig) -> SrvConfig {
        SrvConfig {
            keep_alive: or_else(self.keep_alive, other.keep_alive),
            listen_addresses: or_else(self.listen_addresses, other.listen_addresses),
            worker_processes: or_else(self.worker_processes, other.worker_processes),
        }
    }

    /// Settings with nothing set.
    pub fn new() -> (srv: SrvConfig)
        ensures
            srv == (SrvConfig { keep_alive: None, listen_addresses: None, worker_processes: None }),
    {
        SrvConfig { keep_alive: None, listen_addresses: None, worker_processes: None }
    }

    /// Takes from `other` each setting that `self` lacks.
    pub fn merge(&mut self, other: SrvConfig)
        ensures
            *final(self) == old(self).spec_merge(other),
    {
        set_option(&mut self.keep_alive, other.keep_alive);
        set_option(&mut self.listen_addresses, other.listen_addresses);
        set_option(&mut self.worker_processes, other.worker_processes);
    }

    /// Fills in the defaults: `DEFAULT_KEEP_ALIVE` seconds, the default
    /// address, and one worker for each of the `cpus` processors of the
    /// machine.
    pub fn finalize(self, cpus: usize) -> (finalized: SrvConfig)
        ensures
            finalized.keep_alive == or_else(self.keep_alive, Some(DEFAULT_KEEP_ALIVE)),
            finalized.worker_processes == or_else(self.worker_processes, Some(cpus)),
            finalized.listen_addresses is Some,
            finalized.listen_addresses->0@ == match self.listen_addresses {
                Some(address) => address@,
                None => default_listen_addresses(),
            },
    {
        SrvConfig {
            keep_alive: match self.keep_alive {
                Some(seconds) => Some(seconds),
                None => Some(DEFAULT_KEEP_ALIVE),
            },
            listen_addresses: match self.listen_addresses {
                Some(address) => Some(address),
                None => Some("0.0.0.0:3000".to_owned()),
            },
            worker_processes: match self.worker_processes {
                Some(workers) => Some(workers),
                None => Some(cpus),
            },
        }
    }
}

impl Default for SrvConfig {
    fn default() -> (srv: SrvConfig)
        ensures
            srv == (SrvConfig { keep_alive: None, listen_addresses: None, worker_processes: None }),
    {
        SrvConfig::new()
    }
}

/// What can be wrong with a configuration.
#[derive(Clone, Copy, Debug, PartialEq, Eq, Hash, Structural)]
pub enum ConfigError {
    /// The configuration of a database is wrong.
    PostgresError(PgError),
}

/// Configuration of the server and of the databases that it publishes.
#[derive(Clone, Debug, PartialEq, Eq)]
pub struct Config {
    pub srv: SrvConfig,
    pub postgres: Option<OneOrMany<PgConfig>>,
    /// Keys at the top of the configuration that mean nothing.
    pub unrecognized: Vec<String>,
}

/// Each database configuration with its defaults filled in, in order.
pub open spec fn finalized_all(configs: Seq<PgConfig>) -> Seq<PgConfig> {
    configs.map_values(|c: PgConfig| c.spec_finalize())
}

/// Every database configuration says how to reach its database.
pub open spec fn all_connected(configs: Seq<PgConfig>) -> bool {
    forall|i: int| 0 <= i < configs.len() ==> (#[trigger] configs[i]).connection_string is Some
}

/// The database configurations of a configuration, in order.
pub open spec fn pg_configs(postgres: Option<OneOrMany<PgConfig>>) -> Seq<PgConfig> {
    match postgres {
        None => Seq::empty(),
        Some(OneOrMany::One(pg)) => seq![pg],
        Some(OneOrMany::Many(list)) => list@,
    }
}

/// Both are absent, or both hold one configuration, or both hold a list.
pub open spec fn same_shape(a: Option<OneOrMany<PgConfig>>, b: Option<OneOrMany<PgConfig>>) -> bool {
    match (a, b) {
        (None, None) => true,
        (Some(OneOrMany::One(_)), Some(OneOrMany::One(_))) => true,
        (Some(OneOrMany::Many(_)), Some(OneOrMany::Many(_))) => true,
        _ => false,
    }
}

/// The keys of `first`, then each key of `second` that was not there
/// before, in their order.
pub open spec fn merged_keys(first: Seq<Seq<char>>, second: Seq<Seq<char>>) -> Seq<Seq<char>>
    decreases second.len(),
{
    if second.len() == 0 {
        first
    } else {
        let merged = merged_keys(first, second.drop_last());
        if merged.contains(second.last()) {
            merged
        } else {
            merged.push(second.last())
        }
    }
}

/// Merging keeps every key once.
pub proof fn lemma_merged_keys_distinct(first: Seq<Seq<char>>, second: Seq<Seq<char>>)
    requires
        first.no_duplicates(),
    ensures
        merged_keys(first, second).no_duplicates(),
        forall|k: Seq<char>|
            merged_keys(first, second).contains(k) <==> first.contains(k) || second.contains(k),
    decreases second.len(),
{
    if second.len() > 0 {
        let rest = second.drop_last();
        let merged = merged_keys(first, rest);
        lemma_merged_keys_distinct(first, rest);
        assert forall|k: Seq<char>| merged_keys(first, second).contains(k) <==> first.contains(k)
            || second.contains(k) by {
            if second.contains(k) {
                let at = choose|at: int| 0 <= at < second.len() && second[at] == k;
                if at < rest.len() {
                    assert(rest[at] == k);
                }
            }
            if rest.contains(k) {
                let at = choose|at: int| 0 <= at < rest.len() && rest[at] == k;
                assert(second[at] == k);
            }
            assert(second[second.len() - 1] == second.last());
            if !merged.contains(second.last()) {
                let all = merged.push(second.last());
                if merged.contains(k) {
                    let at = choose|at: int| 0 <= at < merged.len() && merged[at] == k;
                    assert(all[at] == k);
                }
                assert(all[merged.len() as int] == second.last());
            }
        }
    }
}

/// Fills in the defaults of each database configuration, and fails at the
/// first that does not say how to reach its database.
fn finalize_many(configs: Vec<PgConfig>) -> (finalized: Result<Vec<PgConfig>, PgError>)
    ensures
        all_connected(configs@) ==> finalized is Ok && finalized->Ok_0@ == finalized_all(configs@),
        !all_connected(configs@) ==> finalized == Err::<Vec<PgConfig>, PgError>(
            PgError::NoConnectionString,
        ),
{
    let mut rest = configs;
    let mut done: Vec<PgConfig> = Vec::new();
    let ghost all = configs@;
    while rest.len() > 0
        invariant
            done@.len() + rest@.len() == all.len(),
            rest@ == all.skip(done@.len() as int),
            done@ == finalized_all(all.take(done@.len() as int)),
            all_connected(all.take(done@.len() as int)),
            all == configs@,
        decreases rest@.len(),
    {
        let ghost n = done@.len() as int;
        let config = rest.remove(0);
        assert(config == all[n]);
        assert(rest@ =~= all.skip(n + 1));
        match config.finalize() {
            Ok(finalized) => {
                done.push(finalized);
                assert(all.take(n + 1) =~= all.take(n).push(all[n]));
                assert(done@ =~= finalized_all(all.take(n + 1)));
            },
            Err(error) => {
                return Err(error);
            },
        }
    }
    assert(all.take(all.len() as int) =~= all);
    Ok(done)
}

impl Config {
    /// A configuration with nothing set.
    pub fn new() -> (config: Config)
        ensures
            config.srv == (SrvConfig {
                keep_alive: None,
                listen_addresses: None,
                worker_processes: None,
            }),
            config.postgres is None,
            config.unrecognized@ == Seq::<String>::empty(),
    {
        Config { srv: SrvConfig::new(), postgres: None, unrecognized: Vec::new() }
    }

    /// No key that means nothing is listed twice, and every database
    /// configuration is well formed.
    pub open spec fn wf(&self) -> bool {
        &&& views(self.unrecognized@).no_duplicates()
        &&& forall|i: int|
            0 <= i < pg_configs(self.postgres).len() ==> (#[trigger] pg_configs(self.postgres)[i]).wf()
    }

    /// Tests whether no key that means nothing is listed twice and every
    /// database configuration is well formed.
    #[verifier::loop_isolation(false)]
    pub fn is_wf(&self) -> (wf: bool)
        ensures
            wf == self.wf(),
    {
        if !all_distinct(&self.unrecognized) {
            return false;
        }
        match &self.postgres {
            None => true,
            Some(OneOrMany::One(pg)) => {
                assert(pg_configs(self.postgres)[0] == *pg);
                pg.is_wf()
            },
            Some(OneOrMany::Many(list)) => {
                let mut i: usize = 0;
                while i < list.len()
                    invariant
                        i <= list.len(),
                        forall|k: int| 0 <= k < i ==> (#[trigger] list@[k]).wf(),
                    decreases list.len() - i,
                {
                    if !list[i].is_wf() {
                        assert(!pg_configs(self.postgres)[i as int].wf());
                        return false;
                    }
                    i += 1;
                }
                true
            },
        }
    }

    /// Takes from `other` each setting that `self` lacks, and every key of
    /// `other` that means nothing and is not listed yet. Two configurations
    /// that both describe databases cannot be merged.
    pub fn merge(&mut self, other: Config)
        requires
            old(self).postgres is None || other.postgres is None,
        ensures
            final(self).srv == old(self).srv.spec_merge(other.srv),
            final(self).postgres == or_else(old(self).postgres, other.postgres),
            views(final(self).unrecognized@) == merged_keys(
                views(old(self).unrecognized@),
                views(other.unrecognized@),
            ),
            old(self).wf() && other.wf() ==> final(self).wf(),
    {
        let ghost first = views(self.unrecognized@);
        let ghost second = views(other.unrecognized@);
        let keys = other.unrecognized;
        let mut i: usize = 0;
        assert(second.take(0) =~= Seq::<Seq<char>>::empty());
        while i < keys.len()
            invariant
                i <= keys.len(),
                second == views(keys@),
                views(self.unrecognized@) == merged_keys(first, second.take(i as int)),
                self.srv == old(self).srv,
                self.postgres == old(self).postgres,
            decreases keys.len() - i,
        {
            proof {
                let next = second.take(i + 1);
                assert(next.drop_last() =~= second.take(i as int));
                assert(next.last() == second[i as int]);
            }
            if !contains_str(&self.unrecognized, keys[i].as_str()) {
                let ghost merged = views(self.unrecognized@);
                self.unrecognized.push(keys[i].clone());
                assert(views(self.unrecognized@) =~= merged.push(second[i as int]));
            }
            i += 1;
        }
        proof {
            assert(second.take(keys.len() as int) =~= second);
            if first.no_duplicates() {
                lemma_merged_keys_distinct(first, second);
            }
        }
        self.srv.merge(other.srv);
        if other.postgres.is_some() {
            self.postgres = other.postgres;
        }
    }

    /// The path of each top-level key that means nothing, each worth a warning.
    pub fn unrecognized_paths(&self) -> (paths: Vec<String>)
        ensures
            views(paths@) == prefixed(Seq::<char>::empty(), views(self.unrecognized@)),
    {
        let mut paths: Vec<String> = Vec::new();
        assert(views(paths@) =~= Seq::<Seq<char>>::empty());
        proof {
            reveal_strlit("");
        }
        push_prefixed(&mut paths, "", &self.unrecognized);
        assert(""@ =~= Seq::<char>::empty());
        assert(views(paths@) =~= prefixed(Seq::<char>::empty(), views(self.unrecognized@)));
        paths
    }

    /// Fills in the defaults: those of the server, with one worker for
    /// each of the `cpus` processors of the machine, and those of every
    /// database configuration. A configuration with a database that it does
    /// not say how to reach is refused. Keys that mean nothing are kept, and
    /// never a reason to refuse.
    pub fn finalize(self, cpus: usize) -> (finalized: Result<Config, ConfigError>)
        ensures
            all_connected(pg_configs(self.postgres)) ==> {
                &&& finalized matches Ok(config)
                &&& config.srv.keep_alive == or_else(self.srv.keep_alive, Some(DEFAULT_KEEP_ALIVE))
                &&& config.srv.worker_processes == or_else(self.srv.worker_processes, Some(cpus))
                &&& config.srv.listen_addresses is Some
                &&& config.srv.listen_addresses->0@ == match self.srv.listen_addresses {
                    Some(address) => address@,
                    None => default_listen_addresses(),
                }
                &&& config.unrecognized == self.unrecognized
                &&& pg_configs(config.postgres) == finalized_all(pg_configs(self.postgres))
                &&& same_shape(config.postgres, self.postgres)
                &&& self.wf() ==> config.wf()
            },
            !all_connected(pg_configs(self.postgres)) ==> finalized == Err::<Config, ConfigError>(
                ConfigError::PostgresError(PgError::NoConnectionString),
            ),
    {
        let postgres: Option<OneOrMany<PgConfig>> = match self.postgres {
            None => None,
            Some(OneOrMany::One(pg)) => {
                assert(pg_configs(self.postgres)[0] == pg);
                match pg.finalize() {
                    Ok(finalized) => {
                        assert(seq![finalized] =~= finalized_all(seq![pg]));
                        Some(OneOrMany::One(finalized))
                    },
                    Err(error) => {
                        return Err(ConfigError::PostgresError(error));
                    },
                }
            },
            Some(OneOrMany::Many(list)) => match finalize_many(list) {
                Ok(finalized) => Some(OneOrMany::Many(finalized)),
                Err(error) => {
                    return Err(ConfigError::PostgresError(error));
                },
            },
        };
        assert(self.postgres is None ==> finalized_all(pg_configs(self.postgres)) =~= Seq::<
            PgConfig,
        >::empty());
        Ok(Config { srv: self.srv.finalize(cpus), postgres, unrecognized: self.unrecognized })
    }
}

impl Default for Config {
    fn default() -> (config: Config)
        ensures
            config.srv == (SrvConfig {
                keep_alive: None,
                listen_addresses: None,
                worker_processes: None,
            }),
            config.postgres is None,
            config.unrecognized@ == Seq::<String>::empty(),
    {
        Config::new()
    }
}

} // verus!
