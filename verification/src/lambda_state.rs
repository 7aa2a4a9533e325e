//! The lambda state: an auxiliary blob that is carried from one advance to
//! the next as a pair of files, and the options the machine is loaded with.
//!
//! The working file is made and measured outside this library. Here it is
//! decided how the report of the cloning is read, with which options the
//! machine is loaded, and where and how the working file is bound into the
//! machine's memory.

use vstd::prelude::*;
use crate::constants::MEMORY_RANGE_CONFIG_START;

verus! {

/// The checkpoint file of the previous advance and the working file that is
/// made from it.
#[derive(Debug, PartialEq, Eq)]
pub struct RunAdvanceLambdaStatePaths {
    pub lambda_state_previous_path: String,
    pub lambda_state_next_path: String,
}

/// [`RunAdvanceLambdaStatePaths`] with its paths as sequences.
pub struct LambdaStatePathsView {
    pub previous: Seq<char>,
    pub next: Seq<char>,
}

impl View for RunAdvanceLambdaStatePaths {
    type V = LambdaStatePathsView;

    open spec fn view(&self) -> LambdaStatePathsView {
        LambdaStatePathsView {
            previous: self.lambda_state_previous_path@,
            next: self.lambda_state_next_path@,
        }
    }
}

/// How the working file came to be.
#[derive(Clone, Copy, Debug, PartialEq, Eq, Structural)]
pub enum CloneMode {
    /// It shares its storage with the checkpoint until one of them is written.
    Reflinked,
    /// It is a full copy of so many bytes: slower, and worth a warning, but no error.
    Copied { bytes: u64 },
}

/// A region of the machine's memory that is replaced by a file.
#[derive(Debug, PartialEq, Eq)]
pub struct MemoryBinding {
    pub start: u64,
    pub length: u64,
    pub shared: bool,
    pub backing_file: String,
}

/// A [`MemoryBinding`] with its path as a sequence.
pub struct MemoryBindingView {
    pub start: u64,
    pub length: u64,
    pub shared: bool,
    pub backing_file: Seq<char>,
}

impl View for MemoryBinding {
    type V = MemoryBindingView;

    open spec fn view(&self) -> MemoryBindingView {
        MemoryBindingView {
            start: self.start,
            length: self.length,
            shared: self.shared,
            backing_file: self.backing_file@,
        }
    }
}

/// The binding of the working file for a checkpoint of `previous_size` bytes:
/// at the reserved address, as long as the checkpoint, shared with the file.
pub open spec fn binding_of(paths: LambdaStatePathsView, previous_size: u64) -> MemoryBindingView {
    MemoryBindingView {
        start: MEMORY_RANGE_CONFIG_START,
        length: previous_size,
        shared: true,
        backing_file: paths.next,
    }
}

/// The options for loading the machine: no check and no store of the root
/// hash, no worker for the Merkle tree, the version checked, hard yields, and
/// the console silenced if the caller asks for it.
pub open spec fn load_options(no_console_putchar: bool) -> RuntimeOptions {
    RuntimeOptions {
        skip_root_hash_check: true,
        skip_root_hash_store: true,
        update_merkle_tree: 0,
        no_console_putchar,
        skip_version_check: false,
        soft_yield: false,
    }
}

/// The options with which the machine is loaded from its snapshot.
#[derive(Clone, Copy, Debug, PartialEq, Eq, Structural)]
pub struct RuntimeOptions {
    pub skip_root_hash_check: bool,
    pub skip_root_hash_store: bool,
    pub update_merkle_tree: u64,
    pub no_console_putchar: bool,
    pub skip_version_check: bool,
    pub soft_yield: bool,
}

/// Reads what a successful cloning reported: nothing where the file was
/// reflinked, the number of bytes written where it was copied.
pub fn classify_clone(copied: Option<u64>) -> (mode: CloneMode)
    ensures
        mode == (match copied {
            None => CloneMode::Reflinked,
            Some(bytes) => (CloneMode::Copied { bytes }),
        }),
{
    match copied {
        None => CloneMode::Reflinked,
        Some(bytes) => CloneMode::Copied { bytes },
    }
}

/// Whether the cloning fell back to a full copy, which callers report as a
/// warning.
pub fn is_degraded(mode: CloneMode) -> (r: bool)
    ensures
        r == (mode is Copied),
{
    match mode {
        CloneMode::Reflinked => false,
        CloneMode::Copied { .. } => true,
    }
}

/// The binding of the working file: at the reserved address, as long as the
/// checkpoint file is, shared with the file so that writes reach it.
pub fn lambda_state_binding(paths: &RunAdvanceLambdaStatePaths, previous_size: u64) -> (binding:
    MemoryBinding)
    ensures
        binding@ == binding_of(paths@, previous_size),
{
    MemoryBinding {
        start: MEMORY_RANGE_CONFIG_START,
        length: previous_size,
        shared: true,
        backing_file: paths.lambda_state_next_path.clone(),
    }
}

/// The options for loading the machine, see [`load_options`].
pub fn runtime_options(no_console_putchar: bool) -> (options: RuntimeOptions)
    ensures
        options == load_options(no_console_putchar),
{
    RuntimeOptions {
        skip_root_hash_check: true,
        skip_root_hash_store: true,
        update_merkle_tree: 0,
        no_console_putchar,
        skip_version_check: false,
        soft_yield: false,
    }
}

} // verus!
