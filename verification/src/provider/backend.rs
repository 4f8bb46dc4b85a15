//! Settings for the database backends that builders run on: an in-memory
//! database, or a database on disk.

use std::marker::PhantomData;
use vstd::prelude::*;

verus! {

#[verifier::external_type_specification]
#[verifier::external_body]
pub struct ExPathBuf(std::path::PathBuf);

/// The default canonicalization delay of the backends created here.
pub const CANONICALIZATION_DELAY: u64 = 4096;

/// The default cache size of a RocksDb database.
pub const ROCKS_DB_CACHE_SIZE: usize = 1024;

/// Which blocks a backend keeps.
#[derive(Copy, Clone, PartialEq, Eq, Debug, Structural)]
pub enum BlocksPruning {
    /// Keep every block.
    KeepAll,
    /// Keep the finalized blocks.
    KeepFinalized,
    /// Keep this many recent finalized blocks.
    KeepRecent(u32),
}

/// Which states a backend keeps.
#[derive(Copy, Clone, PartialEq, Eq, Debug, Structural)]
pub enum PruningMode {
    /// Keep the states of at most this many recent blocks (all when `None`).
    Constrained(Option<u32>),
    /// Keep every state.
    ArchiveAll,
    /// Keep the states of all canonical blocks.
    ArchiveCanonical,
}

/// The kind of database on disk.
#[derive(Copy, Clone, PartialEq, Eq, Debug, Structural)]
pub enum DiskDatabaseType {
    RocksDb { cache_size: usize },
    ParityDb,
}

/// The settings of a backend as plain values.
pub struct DbSettings {
    pub blocks_pruning: BlocksPruning,
    pub trie_cache: Option<usize>,
    pub state_pruning: Option<PruningMode>,
    pub canonicalization_delay: u64,
}

/// The settings of an in-memory backend.
pub struct MemDb<Block> {
    blocks_pruning: BlocksPruning,
    trie_cache: Option<usize>,
    state_pruning: Option<PruningMode>,
    require_create_flag: bool,
    canonicalization_delay: u64,
    _phantom: PhantomData<Block>,
}

impl<Block> MemDb<Block> {
    /// The settings shared with every backend.
    pub closed spec fn settings(&self) -> DbSettings {
        DbSettings {
            blocks_pruning: self.blocks_pruning,
            trie_cache: self.trie_cache,
            state_pruning: self.state_pruning,
            canonicalization_delay: self.canonicalization_delay,
        }
    }

    /// Whether the database must be created anew.
    pub closed spec fn create_flag(&self) -> bool {
        self.require_create_flag
    }

    /// Keeps all blocks, no trie cache, keeps all states, requires a fresh
    /// database and delays canonicalization by 4096 blocks.
    pub fn new() -> (r: Self)
        ensures
            r.settings() == (DbSettings {
                blocks_pruning: BlocksPruning::KeepAll,
                trie_cache: None,
                state_pruning: Some(PruningMode::ArchiveAll),
                canonicalization_delay: CANONICALIZATION_DELAY,
            }),
            r.create_flag(),
    {
        Self {
            blocks_pruning: BlocksPruning::KeepAll,
            trie_cache: None,
            state_pruning: Some(PruningMode::ArchiveAll),
            require_create_flag: true,
            canonicalization_delay: CANONICALIZATION_DELAY,
            _phantom: PhantomData,
        }
    }

    /// Sets which blocks are kept.
    pub fn with_blocks_pruning(&mut self, pruning: BlocksPruning) -> (r: &mut Self)
        ensures
            r.settings() == (DbSettings { blocks_pruning: pruning, ..old(self).settings() }),
            r.create_flag() == old(self).create_flag(),
            *final(self) == *final(r),
    {
        self.blocks_pruning = pruning;
        self
    }

    /// Sets the size of the trie cache.
    pub fn with_trie_cache(&mut self, trie_cache: usize) -> (r: &mut Self)
        ensures
            r.settings() == (DbSettings { trie_cache: Some(trie_cache), ..old(self).settings() }),
            r.create_flag() == old(self).create_flag(),
            *final(self) == *final(r),
    {
        self.trie_cache = Some(trie_cache);
        self
    }

    /// Turns the trie cache off.
    pub fn no_trie_cache(&mut self) -> (r: &mut Self)
        ensures
            r.settings() == (DbSettings { trie_cache: None, ..old(self).settings() }),
            r.create_flag() == old(self).create_flag(),
            *final(self) == *final(r),
    {
        self.trie_cache = None;
        self
    }

    /// Sets which states are kept.
    pub fn with_state_pruning(&mut self, pruning: PruningMode) -> (r: &mut Self)
        ensures
            r.settings() == (DbSettings { state_pruning: Some(pruning), ..old(self).settings() }),
            r.create_flag() == old(self).create_flag(),
            *final(self) == *final(r),
    {
        self.state_pruning = Some(pruning);
        self
    }

    /// Leaves the choice of kept states to the backend.
    pub fn no_state_pruning(&mut self) -> (r: &mut Self)
        ensures
            r.settings() == (DbSettings { state_pruning: None, ..old(self).settings() }),
            r.create_flag() == old(self).create_flag(),
            *final(self) == *final(r),
    {
        self.state_pruning = None;
        self
    }

    /// Sets the canonicalization delay.
    pub fn with_canonicalization_delay(&mut self, delay: u64) -> (r: &mut Self)
        ensures
            r.settings() == (DbSettings { canonicalization_delay: delay, ..old(self).settings() }),
            r.create_flag() == old(self).create_flag(),
            *final(self) == *final(r),
    {
        self.canonicalization_delay = delay;
        self
    }

    /// Sets whether the database must be created anew.
    pub fn with_create_flag(&mut self, create: bool) -> (r: &mut Self)
        ensures
            r.settings() == old(self).settings(),
            r.create_flag() == create,
            *final(self) == *final(r),
    {
        self.require_create_flag = create;
        self
    }
}

/// The settings of a backend on disk.
pub struct DiskDb<Block> {
    path: std::path::PathBuf,
    blocks_pruning: BlocksPruning,
    trie_cache: Option<usize>,
    state_pruning: Option<PruningMode>,
    database_type: DiskDatabaseType,
    canonicalization_delay: u64,
    _phantom: PhantomData<Block>,
}

impl<Block> DiskDb<Block> {
    /// The settings shared with every backend.
    pub closed spec fn settings(&self) -> DbSettings {
        DbSettings {
            blocks_pruning: self.blocks_pruning,
            trie_cache: self.trie_cache,
            state_pruning: self.state_pruning,
            canonicalization_delay: self.canonicalization_delay,
        }
    }

    /// The kind of database.
    pub closed spec fn database_type(&self) -> DiskDatabaseType {
        self.database_type
    }

    /// Where the database lies.
    pub closed spec fn path(&self) -> std::path::PathBuf {
        self.path
    }

    /// Keeps all blocks, no trie cache, keeps all states, uses RocksDb with a
    /// cache of 1024 and delays canonicalization by 4096 blocks.
    pub fn new(path: std::path::PathBuf) -> (r: Self)
        ensures
            r.settings() == (DbSettings {
                blocks_pruning: BlocksPruning::KeepAll,
                trie_cache: None,
                state_pruning: Some(PruningMode::ArchiveAll),
                canonicalization_delay: CANONICALIZATION_DELAY,
            }),
            r.database_type() == (DiskDatabaseType::RocksDb { cache_size: ROCKS_DB_CACHE_SIZE }),
            r.path() == path,
    {
        Self {
            path,
            blocks_pruning: BlocksPruning::KeepAll,
            trie_cache: None,
            state_pruning: Some(PruningMode::ArchiveAll),
            database_type: DiskDatabaseType::RocksDb { cache_size: ROCKS_DB_CACHE_SIZE },
            canonicalization_delay: CANONICALIZATION_DELAY,
            _phantom: PhantomData,
        }
    }

    /// The path of the database.
    pub fn db_path(&self) -> (r: &std::path::PathBuf)
        ensures
            *r == self.path(),
    {
        &self.path
    }

    /// Sets which blocks are kept.
    pub fn with_blocks_pruning(&mut self, pruning: BlocksPruning) -> (r: &mut Self)
        ensures
            r.settings() == (DbSettings { blocks_pruning: pruning, ..old(self).settings() }),
            r.database_type() == old(self).database_type(),
            r.path() == old(self).path(),
            *final(self) == *final(r),
    {
        self.blocks_pruning = pruning;
        self
    }

    /// Sets the size of the trie cache.
    pub fn with_trie_cache(&mut self, trie_cache: usize) -> (r: &mut Self)
        ensures
            r.settings() == (DbSettings { trie_cache: Some(trie_cache), ..old(self).settings() }),
            r.database_type() == old(self).database_type(),
            r.path() == old(self).path(),
            *final(self) == *final(r),
    {
        self.trie_cache = Some(trie_cache);
        self
    }

    /// Turns the trie cache off.
    pub fn no_trie_cache(&mut self) -> (r: &mut Self)
        ensures
            r.settings() == (DbSettings { trie_cache: None, ..old(self).settings() }),
            r.database_type() == old(self).database_type(),
            r.path() == old(self).path(),
            *final(self) == *final(r),
    {
        self.trie_cache = None;
        self
    }

    /// Sets which states are kept.
    pub fn with_state_pruning(&mut self, pruning: PruningMode) -> (r: &mut Self)
        ensures
            r.settings() == (DbSettings { state_pruning: Some(pruning), ..old(self).settings() }),
            r.database_type() == old(self).database_type(),
            r.path() == old(self).path(),
            *final(self) == *final(r),
    {
        self.state_pruning = Some(pruning);
        self
    }

    /// Leaves the choice of kept states to the backend.
    pub fn no_state_pruning(&mut self) -> (r: &mut Self)
        ensures
            r.settings() == (DbSettings { state_pruning: None, ..old(self).settings() }),
            r.database_type() == old(self).database_type(),
            r.path() == old(self).path(),
            *final(self) == *final(r),
    {
        self.state_pruning = None;
        self
    }

    /// Sets the canonicalization delay.
    pub fn with_canonicalization_delay(&mut self, delay: u64) -> (r: &mut Self)
        ensures
            r.settings() == (DbSettings { canonicalization_delay: delay, ..old(self).settings() }),
            r.database_type() == old(self).database_type(),
            r.path() == old(self).path(),
            *final(self) == *final(r),
    {
        self.canonicalization_delay = delay;
        self
    }

    /// Sets the kind of database.
    pub fn with_database_type(&mut self, database_type: DiskDatabaseType) -> (r: &mut Self)
        ensures
            r.settings() == old(self).settings(),
            r.database_type() == database_type,
            r.path() == old(self).path(),
            *final(self) == *final(r),
    {
        self.database_type = database_type;
        self
    }
}

} // verus!
