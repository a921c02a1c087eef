use std::cell::{Cell, RefCell};
use std::sync::Arc;

use sc_executor::{NativeVersion, RuntimeVersion};
use sc_light::call_executor::{
    require_local_state, wrap_contextual_result, BackendTrustLevel, CallExecutor,
    ContextualCallExecutor, ExecutionManager, GenesisCallExecutor, ProvingExecutor,
    RemoteBackend,
};
use sc_light::error::ClientError;
use sp_core::NativeOrEncoded;
use sp_externalities::Extensions;
use sp_state_machine::{ExecutionStrategy, OverlayedChanges, StorageProof};

const BLOCK_A: u32 = 1;
const BLOCK_B: u32 = 2;

/// A backend that holds the state of the blocks listed, and counts how often it was asked.
struct Blocks {
    local: RefCell<Vec<u32>>,
    asked: Cell<usize>,
}

impl Blocks {
    fn with_local(local: Vec<u32>) -> Blocks {
        Blocks { local: RefCell::new(local), asked: Cell::new(0) }
    }
}

impl RemoteBackend<u32> for Blocks {
    fn is_local_state_available(&self, block: &u32) -> bool {
        self.asked.set(self.asked.get() + 1);
        self.local.borrow().contains(block)
    }
}

type NativeCall = fn() -> Result<u64, String>;

/// A local executor over a key-value state per block. Method `get` reads the key given as call
/// data; any other method fails.
#[derive(Clone)]
struct Local {
    state: Vec<(u32, Vec<(Vec<u8>, Vec<u8>)>)>,
    native: Arc<NativeVersion>,
    calls: Arc<Cell<usize>>,
    seen_manager: Arc<Cell<Option<ExecutionManager>>>,
    seen_cache: Arc<Cell<Option<bool>>>,
    contextual_error: Option<ClientError>,
}

impl Local {
    fn new() -> Local {
        Local {
            state: vec![
                (BLOCK_A, vec![(b"k1".to_vec(), b"v1".to_vec())]),
                (BLOCK_B, vec![(b"k1".to_vec(), b"v2".to_vec())]),
            ],
            native: Arc::new(NativeVersion {
                runtime_version: version_of(0),
                can_author_with: Default::default(),
            }),
            calls: Arc::new(Cell::new(0)),
            seen_manager: Arc::new(Cell::new(None)),
            seen_cache: Arc::new(Cell::new(None)),
            contextual_error: None,
        }
    }

    fn read(&self, block: &u32, key: &[u8]) -> Option<Vec<u8>> {
        let (_, entries) = self.state.iter().find(|(id, _)| id == block)?;
        entries.iter().find(|(k, _)| k.as_slice() == key).map(|(_, v)| v.clone())
    }
}

fn version_of(block: u32) -> RuntimeVersion {
    RuntimeVersion { spec_version: block, ..Default::default() }
}

impl CallExecutor<u32> for Local {
    fn call(
        &self,
        id: &u32,
        method: &str,
        call_data: &[u8],
        _strategy: ExecutionStrategy,
        _extensions: Option<Extensions>,
    ) -> Result<Vec<u8>, ClientError> {
        self.calls.set(self.calls.get() + 1);
        if method != "get" {
            return Err(ClientError::Execution(format!("unknown method {}", method)));
        }
        self.read(id, call_data).ok_or(ClientError::Execution("unknown key".to_string()))
    }

    fn runtime_version(&self, id: &u32) -> Result<RuntimeVersion, ClientError> {
        self.calls.set(self.calls.get() + 1);
        Ok(version_of(*id))
    }

    fn native_runtime_version(&self) -> Option<&NativeVersion> {
        Some(&self.native)
    }
}

impl ContextualCallExecutor<u32, u64, NativeCall> for Local {
    type TransactionCache = u8;

    type ProofRecorder = u8;

    fn contextual_call(
        &self,
        at: &u32,
        _method: &str,
        _call_data: &[u8],
        _changes: &RefCell<OverlayedChanges>,
        storage_transaction_cache: Option<&RefCell<u8>>,
        execution_manager: ExecutionManager,
        native_call: Option<NativeCall>,
        _recorder: &Option<u8>,
        _extensions: Option<Extensions>,
    ) -> Result<NativeOrEncoded<u64>, ClientError> {
        self.calls.set(self.calls.get() + 1);
        self.seen_manager.set(Some(execution_manager));
        self.seen_cache.set(Some(storage_transaction_cache.is_some()));
        if let Some(error) = &self.contextual_error {
            return Err(error.clone());
        }
        match native_call {
            Some(call) => call().map(NativeOrEncoded::Native).map_err(ClientError::Execution),
            None => Ok(NativeOrEncoded::Encoded(vec![*at as u8])),
        }
    }
}

fn forty_two() -> Result<u64, String> {
    Ok(42)
}

fn gated(local: Local) -> GenesisCallExecutor<Blocks, Local> {
    GenesisCallExecutor::new(Arc::new(Blocks::with_local(vec![BLOCK_A])), local)
}

fn contextual(
    executor: &GenesisCallExecutor<Blocks, Local>,
    at: u32,
    manager: ExecutionManager,
    native_call: Option<NativeCall>,
) -> Result<NativeOrEncoded<u64>, ClientError> {
    let changes = RefCell::new(OverlayedChanges::default());
    let cache = RefCell::new(0u8);
    executor.contextual_call(
        &at,
        "Core_version",
        &[],
        &changes,
        Some(&cache),
        manager,
        native_call,
        &None,
        None,
    )
}

#[test]
fn call_on_local_state_returns_the_value() {
    let executor = gated(Local::new());
    let result = executor.call(&BLOCK_A, "get", b"k1", ExecutionStrategy::NativeWhenPossible, None);
    assert_eq!(result, Ok(b"v1".to_vec()));
}

#[test]
fn call_without_local_state_is_not_available() {
    let executor = gated(Local::new());
    let result = executor.call(&BLOCK_B, "get", b"k1", ExecutionStrategy::NativeWhenPossible, None);
    assert_eq!(result, Err(ClientError::NotAvailableOnLightClient));
}

#[test]
fn call_returns_what_the_local_executor_returns() {
    let local = Local::new();
    let executor = gated(local.clone());
    let strategies = [
        ExecutionStrategy::NativeWhenPossible,
        ExecutionStrategy::AlwaysWasm,
        ExecutionStrategy::Both,
        ExecutionStrategy::NativeElseWasm,
    ];
    for strategy in strategies {
        for (method, data) in [("get", &b"k1"[..]), ("get", &b"nothing"[..]), ("put", &b"k1"[..])] {
            let expected = local.call(&BLOCK_A, method, data, strategy, None);
            assert_eq!(executor.call(&BLOCK_A, method, data, strategy, None), expected);
        }
    }
    assert_eq!(
        executor.call(&BLOCK_A, "put", b"k1", ExecutionStrategy::Both, None),
        Err(ClientError::Execution("unknown method put".to_string())),
    );
}

#[test]
fn call_without_local_state_ignores_method_data_and_strategy() {
    let executor = gated(Local::new());
    let strategies = [
        ExecutionStrategy::NativeWhenPossible,
        ExecutionStrategy::AlwaysWasm,
        ExecutionStrategy::Both,
        ExecutionStrategy::NativeElseWasm,
    ];
    for strategy in strategies {
        for (method, data) in [("get", &b"k1"[..]), ("put", &b""[..]), ("", &b"k1"[..])] {
            assert_eq!(
                executor.call(&BLOCK_B, method, data, strategy, None),
                Err(ClientError::NotAvailableOnLightClient),
            );
        }
    }
}

#[test]
fn local_executor_is_not_touched_without_local_state() {
    let local = Local::new();
    let calls = local.calls.clone();
    let executor = gated(local);
    let _ = executor.call(&BLOCK_B, "get", b"k1", ExecutionStrategy::AlwaysWasm, None);
    let _ = executor.runtime_version(&BLOCK_B);
    let _ = contextual(&executor, BLOCK_B, ExecutionManager::Both, Some(forty_two));
    assert_eq!(calls.get(), 0);
    let _ = executor.call(&BLOCK_A, "get", b"k1", ExecutionStrategy::AlwaysWasm, None);
    assert_eq!(calls.get(), 1);
}

#[test]
fn availability_is_asked_on_every_call() {
    let backend = Arc::new(Blocks::with_local(vec![BLOCK_A]));
    let executor = GenesisCallExecutor::new(backend.clone(), Local::new());
    let call = || executor.call(&BLOCK_A, "get", b"k1", ExecutionStrategy::NativeWhenPossible, None);
    assert_eq!(call(), Ok(b"v1".to_vec()));
    assert_eq!(backend.asked.get(), 1);
    backend.local.borrow_mut().clear();
    assert_eq!(call(), Err(ClientError::NotAvailableOnLightClient));
    assert_eq!(backend.asked.get(), 2);
    backend.local.borrow_mut().push(BLOCK_A);
    assert_eq!(call(), Ok(b"v1".to_vec()));
    assert_eq!(backend.asked.get(), 3);
}

#[test]
fn runtime_version_on_local_state_is_the_local_one() {
    let executor = gated(Local::new());
    assert_eq!(executor.runtime_version(&BLOCK_A), Ok(version_of(BLOCK_A)));
}

#[test]
fn runtime_version_without_local_state_is_not_available() {
    let executor = gated(Local::new());
    assert_eq!(executor.runtime_version(&BLOCK_B), Err(ClientError::NotAvailableOnLightClient));
}

#[test]
fn native_runtime_version_is_never_reported() {
    let local = Local::new();
    assert!(local.native_runtime_version().is_some());
    let executor = gated(local);
    assert!(executor.native_runtime_version().is_none());
}

#[test]
fn contextual_call_on_local_state_returns_the_local_value() {
    let executor = gated(Local::new());
    assert_eq!(
        contextual(&executor, BLOCK_A, ExecutionManager::NativeWhenPossible, Some(forty_two)),
        Ok(NativeOrEncoded::Native(42)),
    );
    assert_eq!(
        contextual(&executor, BLOCK_A, ExecutionManager::NativeWhenPossible, None),
        Ok(NativeOrEncoded::Encoded(vec![BLOCK_A as u8])),
    );
}

#[test]
fn contextual_call_asks_for_native_when_possible_whatever_the_caller_asks() {
    let managers = [
        ExecutionManager::NativeWhenPossible,
        ExecutionManager::AlwaysWasm(BackendTrustLevel::Trusted),
        ExecutionManager::AlwaysWasm(BackendTrustLevel::Untrusted),
        ExecutionManager::Both,
        ExecutionManager::NativeElseWasm,
    ];
    for manager in managers {
        let local = Local::new();
        let seen = local.seen_manager.clone();
        let executor = gated(local);
        let _ = contextual(&executor, BLOCK_A, manager, None);
        assert_eq!(seen.get(), Some(ExecutionManager::NativeWhenPossible));
    }
}

#[test]
fn contextual_call_hands_on_no_transaction_cache() {
    let local = Local::new();
    let seen = local.seen_cache.clone();
    let executor = gated(local);
    let _ = contextual(&executor, BLOCK_A, ExecutionManager::Both, None);
    assert_eq!(seen.get(), Some(false));
}

#[test]
fn contextual_call_reports_the_local_error_as_execution_failure() {
    let mut local = Local::new();
    local.contextual_error = Some(ClientError::RuntimeCodeMissing);
    let executor = gated(local);
    assert_eq!(
        contextual(&executor, BLOCK_A, ExecutionManager::Both, None),
        Err(ClientError::Execution("Runtime :code missing in storage".to_string())),
    );

    let mut local = Local::new();
    local.contextual_error = Some(ClientError::Execution("trap".to_string()));
    let executor = gated(local);
    assert_eq!(
        contextual(&executor, BLOCK_A, ExecutionManager::Both, None),
        Err(ClientError::Execution("Execution failed: trap".to_string())),
    );
}

#[test]
fn contextual_call_without_local_state_is_not_available() {
    let executor = gated(Local::new());
    assert_eq!(
        contextual(&executor, BLOCK_B, ExecutionManager::NativeWhenPossible, Some(forty_two)),
        Err(ClientError::NotAvailableOnLightClient),
    );
}

#[test]
fn proving_is_never_available() {
    let executor = gated(Local::new());
    let mut overlay = OverlayedChanges::default();
    overlay.start_transaction();
    let result: Result<(Vec<u8>, StorageProof), ClientError> =
        executor.prove_at_trie_state(&BLOCK_A, &mut overlay, "get", b"k1");
    assert_eq!(result, Err(ClientError::NotAvailableOnLightClient));
    assert!(overlay.commit_transaction().is_ok());
    assert!(overlay.commit_transaction().is_err());
}

#[test]
fn clone_shares_the_backend_and_clones_the_local_executor() {
    let backend = Arc::new(Blocks::with_local(vec![BLOCK_A]));
    let executor = GenesisCallExecutor::new(backend.clone(), Local::new());
    let copy = executor.clone();
    assert_eq!(Arc::strong_count(&backend), 3);
    assert_eq!(
        copy.call(&BLOCK_A, "get", b"k1", ExecutionStrategy::NativeWhenPossible, None),
        Ok(b"v1".to_vec()),
    );
    backend.local.borrow_mut().clear();
    assert_eq!(
        copy.call(&BLOCK_A, "get", b"k1", ExecutionStrategy::NativeWhenPossible, None),
        Err(ClientError::NotAvailableOnLightClient),
    );
    assert_eq!(
        executor.call(&BLOCK_A, "get", b"k1", ExecutionStrategy::NativeWhenPossible, None),
        Err(ClientError::NotAvailableOnLightClient),
    );
}

#[test]
fn only_local_state_lets_a_call_pass() {
    assert_eq!(require_local_state(true), Ok(()));
    assert_eq!(require_local_state(false), Err(ClientError::NotAvailableOnLightClient));
}

#[test]
fn wrapping_keeps_a_value_and_reports_an_error_with_its_text() {
    assert_eq!(wrap_contextual_result(Ok::<u8, ClientError>(7)), Ok(7));
    assert_eq!(
        wrap_contextual_result(Err::<u8, ClientError>(ClientError::NotAvailableOnLightClient)),
        Err(ClientError::Execution(
            "This method is not currently available when running in light client mode".to_string(),
        )),
    );
    assert_eq!(
        wrap_contextual_result(Err::<u8, ClientError>(ClientError::InvalidProof)),
        Err(ClientError::Execution("Invalid execution proof".to_string())),
    );
}

#[test]
fn error_messages() {
    assert_eq!(
        ClientError::NotAvailableOnLightClient.message(),
        "This method is not currently available when running in light client mode",
    );
    assert_eq!(ClientError::Execution("trap".to_string()).message(), "Execution failed: trap");
    assert_eq!(ClientError::Execution(String::new()).message(), "Execution failed: ");
    assert_eq!(ClientError::UnableToGenerateProof.message(), "Unable to generate proof");
    assert_eq!(ClientError::RuntimeCodeMissing.message(), "Runtime :code missing in storage");
    assert_eq!(ClientError::InvalidProof.message(), "Invalid execution proof");
    assert_eq!(
        ClientError::UnableToGenerateProof.wrapped(),
        ClientError::Execution("Unable to generate proof".to_string()),
    );
}
