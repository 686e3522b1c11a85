//! Taking over a config file that changed while the server runs.
use vstd::prelude::*;

use crate::config::{Config, ConfigError, ConfigFile};
use crate::pool::ConnectionPool;

verus! {

/// Reload config from the file at `path`, given what came of reading it. On success, reconcile
/// the pool and update the shared config. On parse/validation error, keep the old config active
/// and return the error so callers can log it.
pub fn reload_config<S>(
    path: &str,
    file: ConfigFile,
    shared_config: &mut Config,
    pool: &mut ConnectionPool<S>,
) -> (result: Result<(), ConfigError>)
    ensures
        match result {
            Ok(()) => file.accepted() matches Some(config) && final(shared_config)@ == config
                && final(pool)@ == old(pool)@.reconciled(config.hosts),
            Err(error) => file.accepted() is None && file.refusal(path@, error@)
                && *final(shared_config) == *old(shared_config) && *final(pool) == *old(pool),
        },
{
    match Config::load(path, file) {
        Err(error) => Err(error),
        Ok(new_config) => {
            pool.reconcile(&new_config);
            *shared_config = new_config;
            Ok(())
        },
    }
}

} // verus!
