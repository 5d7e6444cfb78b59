//! Assembling the synchroniser: it starts only once both its settings and
//! its storage are given.
use vstd::prelude::*;
use crate::connector::config::SyncConfig;

verus! {

/// Why the synchroniser could not start.
#[derive(Clone, Copy, Debug, PartialEq, Eq, Structural)]
pub enum StartError {
    ConfigNotProvided,
    StorageNotProvided,
}

/// The parts of a synchroniser given so far; `S` is the storage. A catch-up
/// depth given with `with_max_catchup_depth` overrides the depth of the
/// settings, whichever of the two is given first.
pub struct SynchronizerBuilder<S> {
    pub config: Option<SyncConfig>,
    pub storage: Option<S>,
    pub max_catchup_depth: Option<u64>,
}

/// The settings the synchroniser starts with: those given, with the depth
/// given separately, if any, in place of theirs.
pub open spec fn effective_config(config: SyncConfig, depth: Option<u64>) -> SyncConfig {
    match depth {
        Some(d) => SyncConfig { max_catchup_depth: d, ..config },
        None => config,
    }
}

impl<S> SynchronizerBuilder<S> {
    /// Nothing given yet.
    pub fn new() -> (r: Self)
        ensures
            r.config is None,
            r.storage is None,
            r.max_catchup_depth is None,
    {
        SynchronizerBuilder { config: None, storage: None, max_catchup_depth: None }
    }

    /// Gives the settings.
    pub fn with_config(self, config: SyncConfig) -> (r: Self)
        ensures
            r.config == Some(config),
            r.storage == self.storage,
            r.max_catchup_depth == self.max_catchup_depth,
    {
        SynchronizerBuilder { config: Some(config), storage: self.storage, max_catchup_depth: self.max_catchup_depth }
    }

    /// Gives the storage.
    pub fn with_storage(self, storage: S) -> (r: Self)
        ensures
            r.config == self.config,
            r.storage == Some(storage),
            r.max_catchup_depth == self.max_catchup_depth,
    {
        SynchronizerBuilder { config: self.config, storage: Some(storage), max_catchup_depth: self.max_catchup_depth }
    }

    /// Sets the catch-up depth, overriding the depth of the settings whether
    /// they are given before or after.
    pub fn with_max_catchup_depth(self, depth: u64) -> (r: Self)
        ensures
            r.config == self.config,
            r.storage == self.storage,
            r.max_catchup_depth == Some(depth),
    {
        SynchronizerBuilder { config: self.config, storage: self.storage, max_catchup_depth: Some(depth) }
    }

    /// The settings to start with and the storage, or which one is missing
    /// (the settings are checked first).
    pub fn parts(self) -> (r: Result<(SyncConfig, S), StartError>)
        ensures
            match (self.config, self.storage) {
                (Some(c), Some(s)) => r == Ok::<(SyncConfig, S), StartError>(
                    (effective_config(c, self.max_catchup_depth), s),
                ),
                (None, _) => r == Err::<(SyncConfig, S), StartError>(StartError::ConfigNotProvided),
                (Some(_), None) => r == Err::<(SyncConfig, S), StartError>(StartError::StorageNotProvided),
            },
    {
        match self.config {
            None => Err(StartError::ConfigNotProvided),
            Some(c) => match self.storage {
                None => Err(StartError::StorageNotProvided),
                Some(s) => {
                    let mut c = c;
                    match self.max_catchup_depth {
                        Some(d) => {
                            c.max_catchup_depth = d;
                        },
                        None => {},
                    }
                    Ok((c, s))
                },
            },
        }
    }
}

/// Starting with a separately given depth takes that depth and keeps every
/// other setting.
pub proof fn lemma_depth_overrides_config(cfg: SyncConfig, d: u64)
    ensures
        effective_config(cfg, Some(d)).max_catchup_depth == d,
        effective_config(cfg, Some(d)).rpc_url == cfg.rpc_url,
        effective_config(cfg, Some(d)).ws_url == cfg.ws_url,
        effective_config(cfg, Some(d)).program_id == cfg.program_id,
        effective_config(cfg, Some(d)).skip_stale == cfg.skip_stale,
        effective_config(cfg, None) == cfg,
{
}

} // verus!
