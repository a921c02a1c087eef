//! Methods that light client could use to execute runtime calls.

use std::cell::RefCell;
use std::sync::Arc;

use sc_executor::{NativeVersion, RuntimeVersion};
use sp_core::traits::{CodeExecutor, SpawnNamed};
use sp_core::NativeOrEncoded;
use sp_externalities::Extensions;
use sp_state_machine::{ExecutionStrategy, OverlayedChanges, StorageProof};
use vstd::prelude::*;

use crate::error::{ClientError, ClientErrorView};
use crate::light::RemoteCallRequest;
use crate::state::{
    backend_nodes, backend_root, convert_root, execute_on_proof, fresh_overlay,
    overlay_is_fresh, proof_check_backend, proof_nodes, proof_reaches_root,
    proved_runtime_code, runtime_code, ProofBackend, RuntimeCode,
};

verus! {

/// How far the state that a call runs on is trusted to answer every read.
#[derive(Debug, Clone, Copy, PartialEq, Eq, Structural)]
pub enum BackendTrustLevel {
    Trusted,
    Untrusted,
}

/// Which form of the runtime, the native one or the wasm module, a call is to run in. What is
/// to happen where both forms run and disagree is no part of it.
#[derive(Debug, Clone, Copy, PartialEq, Eq, Structural)]
pub enum ExecutionManager {
    /// The native form where it fits the wasm module, else the wasm module.
    NativeWhenPossible,
    /// The wasm module.
    AlwaysWasm(BackendTrustLevel),
    /// Both forms, where the native one fits.
    Both,
    /// The native form first, the wasm module where that fails or does not fit.
    NativeElseWasm,
}

/// The backend of a light client, as far as a call executor asks it.
pub trait RemoteBackend<Block> {
    /// Returns true if the state for given block is available locally. The answer may change
    /// from one call to the next, as blocks are imported and pruned.
    fn is_local_state_available(&self, block: &Block) -> bool;
}

/// Method call executor.
pub trait CallExecutor<Block> {
    /// Execute a call to a contract on top of state in a block of given hash.
    ///
    /// No changes are made.
    fn call(
        &self,
        id: &Block,
        method: &str,
        call_data: &[u8],
        strategy: ExecutionStrategy,
        extensions: Option<Extensions>,
    ) -> Result<Vec<u8>, ClientError>;

    /// Extract RuntimeVersion of given block.
    ///
    /// No changes are made.
    fn runtime_version(&self, id: &Block) -> Result<RuntimeVersion, ClientError>;

    /// Get runtime version if supported.
    fn native_runtime_version(&self) -> Option<&NativeVersion>;
}

/// An executor of contextual calls that give an `R`, where `NC` is the native form of a call.
pub trait ContextualCallExecutor<Block, R, NC> {
    /// The cache of the storage transactions of a call.
    type TransactionCache;

    /// The recorder of the trie nodes that a call reads.
    type ProofRecorder;

    /// Execute a contextual call on top of state in a block of a given hash.
    ///
    /// No changes are made.
    fn contextual_call(
        &self,
        at: &Block,
        method: &str,
        call_data: &[u8],
        changes: &RefCell<OverlayedChanges>,
        storage_transaction_cache: Option<&RefCell<Self::TransactionCache>>,
        execution_manager: ExecutionManager,
        native_call: Option<NC>,
        recorder: &Option<Self::ProofRecorder>,
        extensions: Option<Extensions>,
    ) -> Result<NativeOrEncoded<R>, ClientError>;
}

/// An executor that proves calls on a state of type `TrieState`.
pub trait ProvingExecutor<TrieState> {
    /// Execute a call to a contract on top of given trie state, gathering execution proof.
    ///
    /// No changes are made.
    fn prove_at_trie_state(
        &self,
        trie_state: &TrieState,
        overlay: &mut OverlayedChanges,
        method: &str,
        call_data: &[u8],
    ) -> Result<(Vec<u8>, StorageProof), ClientError>;
}

/// A state that calls are proved on.
pub trait StateBackend {
    /// The state as a trie.
    type TrieBackend;

    /// Try convert into trie backend.
    fn as_trie_backend(&mut self) -> Option<&Self::TrieBackend>;
}

/// Call executor that is able to execute calls only on genesis state.
///
/// Trying to execute call on non-genesis state leads to error.
pub struct GenesisCallExecutor<B, L> {
    backend: Arc<B>,
    local: L,
}

impl<B, L> GenesisCallExecutor<B, L> {
    /// The backend that is asked which state is local.
    pub closed spec fn backend(&self) -> B {
        *self.backend
    }

    /// The executor that calls on local state are handed to.
    pub closed spec fn local(&self) -> L {
        self.local
    }

    /// `answer` is an answer of the backend to whether the state of `block` is local.
    pub open spec fn local_state_answer<Block>(&self, block: &Block, answer: bool) -> bool where
        B: RemoteBackend<Block>,
     {
        call_ensures(B::is_local_state_available, (&self.backend(), block), answer)
    }

    /// Create new genesis call executor.
    pub fn new(backend: Arc<B>, local: L) -> (executor: Self)
        ensures
            executor.backend() == *backend,
            executor.local() == local,
    {
        Self { backend, local }
    }
}

/// Lets a call pass where the backend answered that the state of its block is local, and
/// refuses it where the backend answered that it is not.
pub fn require_local_state(available: bool) -> (r: Result<(), ClientError>)
    ensures
        r == (if available {
            Ok::<(), ClientError>(())
        } else {
            Err::<(), ClientError>(ClientError::NotAvailableOnLightClient)
        }),
{
    match available {
        true => Ok(()),
        false => Err(ClientError::NotAvailableOnLightClient),
    }
}

/// `Arc::clone`: one more handle on the same value.
#[verifier::external_body]
fn share<B>(backend: &Arc<B>) -> (shared: Arc<B>)
    ensures
        *shared == **backend,
{
    backend.clone()
}

impl<B, L: Clone> Clone for GenesisCallExecutor<B, L> {
    fn clone(&self) -> (executor: Self)
        ensures
            executor.backend() == self.backend(),
            cloned(self.local(), executor.local()),
    {
        GenesisCallExecutor { backend: share(&self.backend), local: self.local.clone() }
    }
}

impl<Block, B, L> CallExecutor<Block> for GenesisCallExecutor<B, L> where
    B: RemoteBackend<Block>,
    L: CallExecutor<Block>,
 {
    /// Hands the call to the local executor where the backend answers that the state of the
    /// block is local, and refuses it where the backend answers that it is not. The backend is
    /// asked at every call; the strategy has no part in the answer.
    fn call(
        &self,
        id: &Block,
        method: &str,
        call_data: &[u8],
        strategy: ExecutionStrategy,
        extensions: Option<Extensions>,
    ) -> (r: Result<Vec<u8>, ClientError>)
        ensures
            ({
                &&& self.local_state_answer(id, true)
                &&& call_ensures(
                    L::call,
                    (&self.local(), id, method, call_data, strategy, extensions),
                    r,
                )
            }) || ({
                &&& self.local_state_answer(id, false)
                &&& r == Err::<Vec<u8>, ClientError>(ClientError::NotAvailableOnLightClient)
            }),
    {
        match require_local_state(self.backend.is_local_state_available(id)) {
            Ok(()) => self.local.call(id, method, call_data, strategy, extensions),
            Err(error) => Err(error),
        }
    }

    /// The runtime version that the local executor gives where the backend answers that the
    /// state of the block is local; refused where the backend answers that it is not.
    fn runtime_version(&self, id: &Block) -> (r: Result<RuntimeVersion, ClientError>)
        ensures
            ({
                &&& self.local_state_answer(id, true)
                &&& call_ensures(L::runtime_version, (&self.local(), id), r)
            }) || ({
                &&& self.local_state_answer(id, false)
                &&& r == Err::<RuntimeVersion, ClientError>(ClientError::NotAvailableOnLightClient)
            }),
    {
        match require_local_state(self.backend.is_local_state_available(id)) {
            Ok(()) => self.local.runtime_version(id),
            Err(error) => Err(error),
        }
    }

    /// No native runtime is reported, whatever the local executor holds.
    fn native_runtime_version(&self) -> (r: Option<&NativeVersion>)
        ensures
            r is None,
    {
        None
    }
}

/// `r` is what a contextual call gives for the result `local` of the local executor: the value
/// of `local`, or its error reported as the failure of the call, with the same text.
pub open spec fn contextual_result<T>(
    local: Result<T, ClientError>,
    r: Result<T, ClientError>,
) -> bool {
    match local {
        Ok(value) => r == Ok::<T, ClientError>(value),
        Err(cause) => r matches Err(error) && error@ == cause@.wrapped(),
    }
}

/// The result of a contextual call for the result `local` of the local executor.
pub fn wrap_contextual_result<T>(local: Result<T, ClientError>) -> (r: Result<T, ClientError>)
    ensures
        contextual_result(local, r),
{
    match local {
        Ok(value) => Ok(value),
        Err(cause) => Err(cause.wrapped()),
    }
}

impl<Block, R, NC, B, L> ContextualCallExecutor<Block, R, NC> for GenesisCallExecutor<B, L> where
    B: RemoteBackend<Block>,
    L: ContextualCallExecutor<Block, R, NC>,
 {
    type TransactionCache = L::TransactionCache;

    type ProofRecorder = L::ProofRecorder;

    /// Where the backend answers that the state of the block is local, the local executor runs
    /// the call: without a transaction cache, and asked for the native form of the runtime
    /// where that is possible, whatever cache and execution manager the caller hands in. The
    /// value it gives is returned; its error is reported as the failure of the call. Where the
    /// backend answers that the state is not local, the call is refused.
    fn contextual_call(
        &self,
        at: &Block,
        method: &str,
        call_data: &[u8],
        changes: &RefCell<OverlayedChanges>,
        _storage_transaction_cache: Option<&RefCell<Self::TransactionCache>>,
        _manager: ExecutionManager,
        native_call: Option<NC>,
        recorder: &Option<Self::ProofRecorder>,
        extensions: Option<Extensions>,
    ) -> (r: Result<NativeOrEncoded<R>, ClientError>)
        ensures
            ({
                &&& self.local_state_answer(at, true)
                &&& exists|local: Result<NativeOrEncoded<R>, ClientError>|
                    call_ensures(
                        L::contextual_call,
                        (
                            &self.local(),
                            at,
                            method,
                            call_data,
                            changes,
                            None,
                            ExecutionManager::NativeWhenPossible,
                            native_call,
                            recorder,
                            extensions,
                        ),
                        local,
                    ) && contextual_result(local, r)
            }) || ({
                &&& self.local_state_answer(at, false)
                &&& r == Err::<NativeOrEncoded<R>, ClientError>(
                    ClientError::NotAvailableOnLightClient,
                )
            }),
    {
        // there's no actual way/need to specify native/wasm execution strategy on light node
        // => we can safely ignore passed values
        match require_local_state(self.backend.is_local_state_available(at)) {
            Ok(()) => {
                let local = self.local.contextual_call(
                    at,
                    method,
                    call_data,
                    changes,
                    None,
                    ExecutionManager::NativeWhenPossible,
                    native_call,
                    recorder,
                    extensions,
                );
                wrap_contextual_result(local)
            },
            Err(error) => Err(error),
        }
    }
}

impl<TrieState, B, L> ProvingExecutor<TrieState> for GenesisCallExecutor<B, L> {
    /// A light client proves nothing: the call is refused and the overlay left as it was.
    fn prove_at_trie_state(
        &self,
        _state: &TrieState,
        _changes: &mut OverlayedChanges,
        _method: &str,
        _call_data: &[u8],
    ) -> (r: Result<(Vec<u8>, StorageProof), ClientError>)
        ensures
            r == Err::<(Vec<u8>, StorageProof), ClientError>(
                ClientError::NotAvailableOnLightClient,
            ),
            *final(_changes) == *old(_changes),
    {
        Err(ClientError::NotAvailableOnLightClient)
    }
}

/// While the backend answers that the state of a block is local, a call on that block gives
/// what the local executor gives for the same arguments.
pub proof fn call_on_local_state<Block, B: RemoteBackend<Block>, L: CallExecutor<Block>>(
    executor: &GenesisCallExecutor<B, L>,
    id: &Block,
    method: &str,
    call_data: &[u8],
    strategy: ExecutionStrategy,
    extensions: Option<Extensions>,
    r: Result<Vec<u8>, ClientError>,
)
    requires
        call_ensures(
            <GenesisCallExecutor<B, L> as CallExecutor<Block>>::call,
            (executor, id, method, call_data, strategy, extensions),
            r,
        ),
        !executor.local_state_answer(id, false),
    ensures
        call_ensures(L::call, (&executor.local(), id, method, call_data, strategy, extensions), r),
{
}

/// While the backend answers that the state of a block is not local, a call on that block is
/// refused, whatever the method, the data and the strategy.
pub proof fn call_without_local_state<Block, B: RemoteBackend<Block>, L: CallExecutor<Block>>(
    executor: &GenesisCallExecutor<B, L>,
    id: &Block,
    method: &str,
    call_data: &[u8],
    strategy: ExecutionStrategy,
    extensions: Option<Extensions>,
    r: Result<Vec<u8>, ClientError>,
)
    requires
        call_ensures(
            <GenesisCallExecutor<B, L> as CallExecutor<Block>>::call,
            (executor, id, method, call_data, strategy, extensions),
            r,
        ),
        !executor.local_state_answer(id, true),
    ensures
        r == Err::<Vec<u8>, ClientError>(ClientError::NotAvailableOnLightClient),
{
}

/// While the backend answers that the state of a block is local, the runtime version of that
/// block is what the local executor gives.
pub proof fn runtime_version_on_local_state<
    Block,
    B: RemoteBackend<Block>,
    L: CallExecutor<Block>,
>(executor: &GenesisCallExecutor<B, L>, id: &Block, r: Result<RuntimeVersion, ClientError>)
    requires
        call_ensures(
            <GenesisCallExecutor<B, L> as CallExecutor<Block>>::runtime_version,
            (executor, id),
            r,
        ),
        !executor.local_state_answer(id, false),
    ensures
        call_ensures(L::runtime_version, (&executor.local(), id), r),
{
}

/// While the backend answers that the state of a block is not local, the runtime version of
/// that block is refused.
pub proof fn runtime_version_without_local_state<
    Block,
    B: RemoteBackend<Block>,
    L: CallExecutor<Block>,
>(executor: &GenesisCallExecutor<B, L>, id: &Block, r: Result<RuntimeVersion, ClientError>)
    requires
        call_ensures(
            <GenesisCallExecutor<B, L> as CallExecutor<Block>>::runtime_version,
            (executor, id),
            r,
        ),
        !executor.local_state_answer(id, true),
    ensures
        r == Err::<RuntimeVersion, ClientError>(ClientError::NotAvailableOnLightClient),
{
}

/// While the backend answers that the state of a block is local, a contextual call on that
/// block gives what the local executor gives when it is asked, without a transaction cache,
/// for the native form of the runtime where that is possible, whatever the caller asked for;
/// an error of the local executor comes back as the failure of the call.
pub proof fn contextual_call_on_local_state<
    Block,
    R,
    NC,
    B: RemoteBackend<Block>,
    L: ContextualCallExecutor<Block, R, NC>,
>(
    executor: &GenesisCallExecutor<B, L>,
    at: &Block,
    method: &str,
    call_data: &[u8],
    changes: &RefCell<OverlayedChanges>,
    storage_transaction_cache: Option<&RefCell<L::TransactionCache>>,
    manager: ExecutionManager,
    native_call: Option<NC>,
    recorder: &Option<L::ProofRecorder>,
    extensions: Option<Extensions>,
    r: Result<NativeOrEncoded<R>, ClientError>,
)
    requires
        call_ensures(
            <GenesisCallExecutor<B, L> as ContextualCallExecutor<Block, R, NC>>::contextual_call,
            (
                executor,
                at,
                method,
                call_data,
                changes,
                storage_transaction_cache,
                manager,
                native_call,
                recorder,
                extensions,
            ),
            r,
        ),
        !executor.local_state_answer(at, false),
    ensures
        exists|local: Result<NativeOrEncoded<R>, ClientError>|
            call_ensures(
                L::contextual_call,
                (
                    &executor.local(),
                    at,
                    method,
                    call_data,
                    changes,
                    None,
                    ExecutionManager::NativeWhenPossible,
                    native_call,
                    recorder,
                    extensions,
                ),
                local,
            ) && contextual_result(local, r),
{
}

/// While the backend answers that the state of a block is not local, a contextual call on
/// that block is refused, whatever else is handed to it.
pub proof fn contextual_call_without_local_state<
    Block,
    R,
    NC,
    B: RemoteBackend<Block>,
    L: ContextualCallExecutor<Block, R, NC>,
>(
    executor: &GenesisCallExecutor<B, L>,
    at: &Block,
    method: &str,
    call_data: &[u8],
    changes: &RefCell<OverlayedChanges>,
    storage_transaction_cache: Option<&RefCell<L::TransactionCache>>,
    manager: ExecutionManager,
    native_call: Option<NC>,
    recorder: &Option<L::ProofRecorder>,
    extensions: Option<Extensions>,
    r: Result<NativeOrEncoded<R>, ClientError>,
)
    requires
        call_ensures(
            <GenesisCallExecutor<B, L> as ContextualCallExecutor<Block, R, NC>>::contextual_call,
            (
                executor,
                at,
                method,
                call_data,
                changes,
                storage_transaction_cache,
                manager,
                native_call,
                recorder,
                extensions,
            ),
            r,
        ),
        !executor.local_state_answer(at, true),
    ensures
        r == Err::<NativeOrEncoded<R>, ClientError>(ClientError::NotAvailableOnLightClient),
{
}

/// `r` is a result of proving a call on `state`:
/// - where the state gives no trie, no proof can be generated;
/// - where it gives one, `r` is what the executor gives when it proves the call on that trie,
///   with a fresh overlay as the write buffer: the bytes of the call with the proof of what it
///   read, or the error of the executor.
pub open spec fn proved_execution<S: StateBackend, E: ProvingExecutor<S::TrieBackend>>(
    state: S,
    executor: &E,
    method: &str,
    call_data: &[u8],
    r: Result<(Vec<u8>, StorageProof), ClientError>,
) -> bool {
    ||| exists|state_ref: &mut S|
        {
            &&& *state_ref == state
            &&& call_ensures(S::as_trie_backend, (state_ref,), None::<&S::TrieBackend>)
            &&& r == Err::<(Vec<u8>, StorageProof), ClientError>(
                ClientError::UnableToGenerateProof,
            )
        }
    ||| exists|state_ref: &mut S, trie_state: &S::TrieBackend, overlay: &mut OverlayedChanges|
        {
            &&& *state_ref == state
            &&& call_ensures(S::as_trie_backend, (state_ref,), Some(trie_state))
            &&& overlay_is_fresh(*overlay)
            &&& call_ensures(
                E::prove_at_trie_state,
                (executor, trie_state, overlay, method, call_data),
                r,
            )
        }
}

/// Prove execution of a call on a full state.
///
/// The state is read as a trie, and the executor runs the method on it with a fresh overlay
/// as the write buffer, recording what it reads. The bytes that the call gives come back
/// together with the proof of what was read, or neither does.
pub fn prove_execution<S: StateBackend, E: ProvingExecutor<S::TrieBackend>>(
    mut state: S,
    executor: &E,
    method: &str,
    call_data: &[u8],
) -> (r: Result<(Vec<u8>, StorageProof), ClientError>)
    ensures
        proved_execution(state, executor, method, call_data, r),
{
    let trie_state = match state.as_trie_backend() {
        Some(trie_state) => trie_state,
        None => return Err(ClientError::UnableToGenerateProof),
    };

    // execute method + record execution proof
    let mut changes = fresh_overlay();
    assert(overlay_is_fresh(changes));
    executor.prove_at_trie_state(trie_state, &mut changes, method, call_data)
}

/// What a check goes on with for the result `restored` of restoring the state from the proof:
/// the state, or `InvalidProof` where none was restored, whatever the reason given.
pub open spec fn restored_state_of<T>(restored: Result<T, String>) -> Result<T, ClientError> {
    match restored {
        Ok(state) => Ok(state),
        Err(_) => Err(ClientError::InvalidProof),
    }
}

/// The state that a check goes on with, for the result `restored` of restoring it from the
/// proof.
pub fn restored_state<T>(restored: Result<T, String>) -> (r: Result<T, ClientError>)
    ensures
        r == restored_state_of(restored),
{
    match restored {
        Ok(state) => Ok(state),
        Err(_) => Err(ClientError::InvalidProof),
    }
}

/// What a check goes on with for the result `found` of looking up the runtime code in the
/// proved state: the code, or `RuntimeCodeMissing` where none was found, whatever the reason
/// given.
pub open spec fn found_runtime_code_of<T>(found: Result<T, &'static str>) -> Result<
    T,
    ClientError,
> {
    match found {
        Ok(code) => Ok(code),
        Err(_) => Err(ClientError::RuntimeCodeMissing),
    }
}

/// The runtime code that a check goes on with, for the result `found` of looking it up in the
/// proved state.
pub fn found_runtime_code<T>(found: Result<T, &'static str>) -> (r: Result<T, ClientError>)
    ensures
        r == found_runtime_code_of(found),
{
    match found {
        Ok(code) => Ok(code),
        Err(_) => Err(ClientError::RuntimeCodeMissing),
    }
}

/// What a checked call gives for the result `executed` of running it on the proved state: the
/// bytes it gave, or its failure as an `Execution` error with the same text.
pub open spec fn execution_outcome_of(executed: Result<Vec<u8>, String>) -> Result<
    Vec<u8>,
    ClientError,
> {
    match executed {
        Ok(bytes) => Ok(bytes),
        Err(details) => Err(ClientError::Execution(details)),
    }
}

/// The result of a checked call for the result `executed` of running it on the proved state.
pub fn execution_outcome(executed: Result<Vec<u8>, String>) -> (r: Result<Vec<u8>, ClientError>)
    ensures
        r == execution_outcome_of(executed),
{
    match executed {
        Ok(bytes) => Ok(bytes),
        Err(details) => Err(ClientError::Execution(details)),
    }
}

/// `executed` is a result of running `method` with `call_data` on the restored state
/// `backend`, by `executor` with `spawn_handle` for its tasks, with `overlay` as the write
/// buffer of the call and `code` as its runtime code.
pub closed spec fn ran_on_proof<E, S>(
    backend: &ProofBackend,
    overlay: &mut OverlayedChanges,
    executor: &E,
    spawn_handle: S,
    method: &str,
    call_data: &[u8],
    code: &RuntimeCode,
    executed: Result<Vec<u8>, String>,
) -> bool where E: CodeExecutor + Clone + 'static, S: SpawnNamed + Send + 'static {
    call_ensures(
        execute_on_proof::<E, S>,
        (backend, overlay, executor, spawn_handle, method, call_data, code),
        executed,
    )
}

/// The run is one of `method` with `call_data` on the state that the trie nodes `nodes` restore
/// below the state root `root`: with a fresh overlay, and with the runtime code that the nodes
/// prove.
pub open spec fn run_of_request(
    root: Seq<u8>,
    method: Seq<char>,
    call_data: Seq<u8>,
    nodes: Seq<Seq<u8>>,
    backend: &ProofBackend,
    overlay: &mut OverlayedChanges,
    run_method: &str,
    run_data: &[u8],
    code: &RuntimeCode,
) -> bool {
    &&& backend_root(*backend) == root
    &&& backend_nodes(*backend) == nodes
    &&& overlay_is_fresh(*overlay)
    &&& run_method@ == method
    &&& run_data@ == call_data
    &&& proved_runtime_code(root, nodes) == Some((code.hash@, code.heap_pages))
}

/// `r` is a result of checking, by `executor` with `spawn_handle`, the call of `method` with
/// `call_data` against the trie nodes `nodes` of a proof, below the state root `root`:
/// - where the nodes do not lead to the root, the proof is refused as invalid;
/// - where they do, and prove no runtime code, the call is refused for want of code;
/// - else `r` is the outcome of a run of that method with that call data on the state that
///   the nodes restore below the root.
pub open spec fn checked_execution<E, S>(
    executor: &E,
    spawn_handle: S,
    root: Seq<u8>,
    method: Seq<char>,
    call_data: Seq<u8>,
    nodes: Seq<Seq<u8>>,
    r: Result<Vec<u8>, ClientError>,
) -> bool where E: CodeExecutor + Clone + 'static, S: SpawnNamed + Send + 'static {
    if !proof_reaches_root(root, nodes) {
        r == Err::<Vec<u8>, ClientError>(ClientError::InvalidProof)
    } else if proved_runtime_code(root, nodes) is None {
        r == Err::<Vec<u8>, ClientError>(ClientError::RuntimeCodeMissing)
    } else {
        exists|
            backend: &ProofBackend,
            overlay: &mut OverlayedChanges,
            run_method: &str,
            run_data: &[u8],
            code: &RuntimeCode,
            executed: Result<Vec<u8>, String>,
        |
            {
                &&& run_of_request(
                    root,
                    method,
                    call_data,
                    nodes,
                    backend,
                    overlay,
                    run_method,
                    run_data,
                    code,
                )
                &&& #[trigger] ran_on_proof(
                    backend,
                    overlay,
                    executor,
                    spawn_handle,
                    run_method,
                    run_data,
                    code,
                    executed,
                )
                &&& r == execution_outcome_of(executed)
            }
    }
}

/// Check remote execution proof of a call against the state root of the request.
///
/// Proof should include the method execution proof and the runtime code.
///
/// The state root of the request is trusted as it stands. The call runs on the state that the
/// proof restores below that root, with a fresh overlay as its write buffer, and only after the
/// runtime code was found there. What the run gives is the executor's: a read that the proof
/// does not cover fails in the executor, and an executor that panics on it is not held back.
pub fn check_execution_proof<E, S>(
    executor: &E,
    spawn_handle: S,
    request: &RemoteCallRequest,
    remote_proof: StorageProof,
) -> (r: Result<Vec<u8>, ClientError>) where
    E: CodeExecutor + Clone + 'static,
    S: SpawnNamed + Send + 'static,

    ensures
        checked_execution(
            executor,
            spawn_handle,
            request.header.state_root@,
            request.method@,
            request.call_data@,
            proof_nodes(remote_proof),
            r,
        ),
{
    let local_state_root = request.header.state_root();
    let root = convert_root(local_state_root);

    // prepare execution environment
    let mut changes = fresh_overlay();
    assert(overlay_is_fresh(changes));
    let trie_backend = match restored_state(proof_check_backend(root, remote_proof)) {
        Ok(trie_backend) => trie_backend,
        Err(error) => return Err(error),
    };
    let runtime_code = match found_runtime_code(runtime_code(&trie_backend)) {
        Ok(runtime_code) => runtime_code,
        Err(error) => return Err(error),
    };

    // execute method
    let method = request.method.as_str();
    let call_data = request.call_data.as_slice();
    let executed = execute_on_proof(
        &trie_backend,
        &mut changes,
        executor,
        spawn_handle,
        method,
        call_data,
        &runtime_code,
    );
    proof {
        let overlay = choose|overlay: &mut OverlayedChanges|
            overlay_is_fresh(*overlay) && call_ensures(
                execute_on_proof::<E, S>,
                (&trie_backend, overlay, executor, spawn_handle, method, call_data, &runtime_code),
                executed,
            );
        assert(ran_on_proof(
            &trie_backend,
            overlay,
            executor,
            spawn_handle,
            method,
            call_data,
            &runtime_code,
            executed,
        ));
    }
    execution_outcome(executed)
}

/// The result of a run by what it holds: the bytes, or the text of the failure.
pub open spec fn executed_view(executed: Result<Vec<u8>, String>) -> Result<Seq<u8>, Seq<char>> {
    match executed {
        Ok(bytes) => Ok(bytes@),
        Err(details) => Err(details@),
    }
}

/// The result of a check by what it holds: the bytes, or the error with its text.
pub open spec fn outcome_view(r: Result<Vec<u8>, ClientError>) -> Result<
    Seq<u8>,
    ClientErrorView,
> {
    match r {
        Ok(bytes) => Ok(bytes@),
        Err(error) => Err(error@),
    }
}

/// What a check holds for what the run holds: the bytes, or the text of the failure as an
/// `Execution` error.
pub open spec fn outcome_of_run(run: Result<Seq<u8>, Seq<char>>) -> Result<
    Seq<u8>,
    ClientErrorView,
> {
    match run {
        Ok(bytes) => Ok(bytes),
        Err(details) => Err(ClientErrorView::Execution(details)),
    }
}

/// Every run of `method` with `call_data` on the state that the trie nodes restore below the
/// state root, by `executor` with `spawn_handle`, gives `run`.
pub open spec fn every_run_gives<E, S>(
    executor: &E,
    spawn_handle: S,
    root: Seq<u8>,
    method: Seq<char>,
    call_data: Seq<u8>,
    nodes: Seq<Seq<u8>>,
    run: Result<Seq<u8>, Seq<char>>,
) -> bool where E: CodeExecutor + Clone + 'static, S: SpawnNamed + Send + 'static {
    forall|
        backend: &ProofBackend,
        overlay: &mut OverlayedChanges,
        run_method: &str,
        run_data: &[u8],
        code: &RuntimeCode,
        executed: Result<Vec<u8>, String>,
    |
        {
            &&& run_of_request(
                root,
                method,
                call_data,
                nodes,
                backend,
                overlay,
                run_method,
                run_data,
                code,
            )
            &&& #[trigger] ran_on_proof(
                backend,
                overlay,
                executor,
                spawn_handle,
                run_method,
                run_data,
                code,
                executed,
            )
        } ==> executed_view(executed) == run
}

/// A check against a proof that proves no runtime code below the state root never gives bytes:
/// it ends in `InvalidProof` where the proof does not lead to the root, else in
/// `RuntimeCodeMissing`, and no run is made.
pub proof fn check_without_runtime_code<E, S>(
    executor: &E,
    spawn_handle: S,
    root: Seq<u8>,
    method: Seq<char>,
    call_data: Seq<u8>,
    nodes: Seq<Seq<u8>>,
    r: Result<Vec<u8>, ClientError>,
) where E: CodeExecutor + Clone + 'static, S: SpawnNamed + Send + 'static
    requires
        checked_execution(executor, spawn_handle, root, method, call_data, nodes, r),
        proved_runtime_code(root, nodes) is None,
    ensures
        r == Err::<Vec<u8>, ClientError>(
            if proof_reaches_root(root, nodes) {
                ClientError::RuntimeCodeMissing
            } else {
                ClientError::InvalidProof
            },
        ),
{
}

/// A check gives what the run of the request gives: where the proof leads to the state root
/// and proves runtime code, and every run of the request's method with its call data on the
/// restored state gives the same bytes, the check returns those bytes; where every such run
/// fails with the same text, as it does on a read that the proof does not cover, the check
/// fails with an `Execution` error of that text, and returns no bytes.
pub proof fn check_gives_what_the_run_gives<E, S>(
    executor: &E,
    spawn_handle: S,
    root: Seq<u8>,
    method: Seq<char>,
    call_data: Seq<u8>,
    nodes: Seq<Seq<u8>>,
    run: Result<Seq<u8>, Seq<char>>,
    r: Result<Vec<u8>, ClientError>,
) where E: CodeExecutor + Clone + 'static, S: SpawnNamed + Send + 'static
    requires
        checked_execution(executor, spawn_handle, root, method, call_data, nodes, r),
        proof_reaches_root(root, nodes),
        proved_runtime_code(root, nodes) is Some,
        every_run_gives(executor, spawn_handle, root, method, call_data, nodes, run),
    ensures
        outcome_view(r) == outcome_of_run(run),
{
}

/// Bytes that a check returns are the bytes of a run of the request's method with its call
/// data on the state that the proof restores below the state root: no proof, however it was
/// changed, makes a check return bytes without leading to the root, proving runtime code, and
/// such a run giving those bytes.
pub proof fn checked_bytes_come_from_a_run<E, S>(
    executor: &E,
    spawn_handle: S,
    root: Seq<u8>,
    method: Seq<char>,
    call_data: Seq<u8>,
    nodes: Seq<Seq<u8>>,
    r: Result<Vec<u8>, ClientError>,
) where E: CodeExecutor + Clone + 'static, S: SpawnNamed + Send + 'static
    requires
        checked_execution(executor, spawn_handle, root, method, call_data, nodes, r),
        r is Ok,
    ensures
        proof_reaches_root(root, nodes),
        proved_runtime_code(root, nodes) is Some,
        exists|
            backend: &ProofBackend,
            overlay: &mut OverlayedChanges,
            run_method: &str,
            run_data: &[u8],
            code: &RuntimeCode,
            executed: Result<Vec<u8>, String>,
        |
            {
                &&& run_of_request(
                    root,
                    method,
                    call_data,
                    nodes,
                    backend,
                    overlay,
                    run_method,
                    run_data,
                    code,
                )
                &&& #[trigger] ran_on_proof(
                    backend,
                    overlay,
                    executor,
                    spawn_handle,
                    run_method,
                    run_data,
                    code,
                    executed,
                )
                &&& executed_view(executed) == Ok::<Seq<u8>, Seq<char>>(r->Ok_0@)
            },
{
}

/// Two checks of requests with the same state root, method and call data against the same
/// trie nodes, by an executor whose runs of that request all give the same, end the same:
/// both return the same bytes, or both fail with the same error and text. Nothing else of a
/// request has a part in the outcome.
pub proof fn checks_agree<E, S>(
    executor: &E,
    first_handle: S,
    second_handle: S,
    root: Seq<u8>,
    method: Seq<char>,
    call_data: Seq<u8>,
    nodes: Seq<Seq<u8>>,
    run: Result<Seq<u8>, Seq<char>>,
    first: Result<Vec<u8>, ClientError>,
    second: Result<Vec<u8>, ClientError>,
) where E: CodeExecutor + Clone + 'static, S: SpawnNamed + Send + 'static
    requires
        checked_execution(executor, first_handle, root, method, call_data, nodes, first),
        checked_execution(executor, second_handle, root, method, call_data, nodes, second),
        every_run_gives(executor, first_handle, root, method, call_data, nodes, run),
        every_run_gives(executor, second_handle, root, method, call_data, nodes, run),
    ensures
        outcome_view(first) == outcome_view(second),
{
}

/// Two checks against the same state root and the same trie nodes that cannot run the call,
/// for want of a valid proof or of runtime code, end in the same error, whatever the
/// executors, the methods and the call data.
pub proof fn refused_checks_agree<E, S>(
    first_executor: &E,
    second_executor: &E,
    first_handle: S,
    second_handle: S,
    root: Seq<u8>,
    first_method: Seq<char>,
    second_method: Seq<char>,
    first_data: Seq<u8>,
    second_data: Seq<u8>,
    nodes: Seq<Seq<u8>>,
    first: Result<Vec<u8>, ClientError>,
    second: Result<Vec<u8>, ClientError>,
) where E: CodeExecutor + Clone + 'static, S: SpawnNamed + Send + 'static
    requires
        checked_execution(
            first_executor,
            first_handle,
            root,
            first_method,
            first_data,
            nodes,
            first,
        ),
        checked_execution(
            second_executor,
            second_handle,
            root,
            second_method,
            second_data,
            nodes,
            second,
        ),
        !proof_reaches_root(root, nodes) || proved_runtime_code(root, nodes) is None,
    ensures
        first == second,
        first is Err,
{
}

} // verus!
