//! Shared status store: the one live block, installed once at startup and
//! mutated only through the locked update path.
//!
//! The scheduling model is single-core and cooperative, so exclusive access
//! is logical ownership: holding `&mut SharedStatusStore` across an update is
//! the lock, no suspension happens inside it, and every update is atomic with
//! respect to every other. Startup validates that the block fits the
//! externally reserved buffer before anything is written.

use vstd::prelude::*;

use crate::dispatch::{dispatch_message, memory_map_apply, MailboxMessage};
use crate::layout::{MemoryMap, MEMORY_MAP_SIZE};

verus! {

/// Startup failures. Both are fatal misconfigurations for the caller: an
/// oversized block would let the host read or write past the reserved
/// region, and a second installation would relocate a region whose address
/// the host already holds.
#[derive(Clone, Copy, PartialEq, Eq, Structural, Debug)]
pub enum InitError {
    /// The reserved buffer cannot hold the block layout.
    BufferTooSmall,
    /// A block is already installed.
    AlreadyInstalled,
}

/// Steady-state failure: an update or a readout arrived before installation.
#[derive(Clone, Copy, PartialEq, Eq, Structural, Debug)]
pub enum StoreError {
    /// No block has been installed yet.
    NotInstalled,
}

/// The process-wide store holding the live block, or nothing before startup.
pub struct SharedStatusStore {
    block: Option<MemoryMap>,
}

impl SharedStatusStore {
    /// Whether a block has been installed.
    pub closed spec fn is_installed(self) -> bool {
        self.block is Some
    }

    /// The live block; meaningful only once installed.
    pub closed spec fn block_view(self) -> MemoryMap
        recommends
            self.is_installed(),
    {
        self.block.unwrap()
    }

    /// An empty store, as the process starts.
    pub fn new() -> (s: SharedStatusStore)
        ensures
            !s.is_installed(),
    {
        SharedStatusStore { block: None }
    }

    /// Validate the reserved buffer and install the freshly initialized
    /// block: succeeds exactly when the block layout fits the buffer and no
    /// block is installed yet; then every field of the live block is zero
    /// except the version, which reads major 0, minor 1, spin 0. On any
    /// failure nothing is written and the store is unchanged.
    pub fn install(&mut self, buffer_len: usize) -> (r: Result<(), InitError>)
        ensures
            r is Ok <==> (buffer_len >= MEMORY_MAP_SIZE && !old(self).is_installed()),
            r is Ok ==> final(self).is_installed() && final(self).block_view()
                == MemoryMap::initial(),
            r is Err ==> *final(self) == *old(self),
            buffer_len < MEMORY_MAP_SIZE ==> r == Result::<(), InitError>::Err(
                InitError::BufferTooSmall,
            ),
            buffer_len >= MEMORY_MAP_SIZE && old(self).is_installed() ==> r == Result::<
                (),
                InitError,
            >::Err(InitError::AlreadyInstalled),
    {
        if buffer_len < MEMORY_MAP_SIZE {
            return Err(InitError::BufferTooSmall);
        }
        if self.block.is_some() {
            return Err(InitError::AlreadyInstalled);
        }
        self.block = Some(MemoryMap::new_installed());
        Ok(())
    }

    /// Apply one delivered mailbox message to the live block under the
    /// lock: succeeds exactly when a block is installed, and then the block
    /// moves by exactly that one application; before installation nothing
    /// changes.
    pub fn apply(&mut self, msg: &MailboxMessage) -> (r: Result<(), StoreError>)
        ensures
            r is Ok <==> old(self).is_installed(),
            r is Err ==> *final(self) == *old(self) && r == Result::<(), StoreError>::Err(
                StoreError::NotInstalled,
            ),
            r is Ok ==> final(self).is_installed() && final(self).block_view()
                == memory_map_apply(old(self).block_view(), *msg),
    {
        match &mut self.block {
            Some(map) => {
                dispatch_message(map, msg);
                Ok(())
            },
            None => Err(StoreError::NotInstalled),
        }
    }

    /// Read a snapshot of the live block, as the host's poll of the region
    /// sees it between updates: succeeds exactly when a block is installed.
    pub fn snapshot(&self) -> (r: Result<MemoryMap, StoreError>)
        ensures
            r is Ok <==> self.is_installed(),
            r is Ok ==> r.unwrap() == self.block_view(),
            r is Err ==> r == Result::<MemoryMap, StoreError>::Err(StoreError::NotInstalled),
    {
        match &self.block {
            Some(map) => Ok(*map),
            None => Err(StoreError::NotInstalled),
        }
    }
}

} // verus!
