//! The state that runtime calls run on, as the state machine keeps it: the write buffer of a
//! call, storage proofs, and the state that a proof restores.

use vstd::prelude::*;

verus! {

/// `sp_state_machine::OverlayedChanges`: the write buffer of one call, laid over a state.
#[verifier::external_type_specification]
#[verifier::external_body]
pub struct ExOverlayedChanges(sp_state_machine::OverlayedChanges);

/// `sp_state_machine::StorageProof`: the encoded trie nodes that were read below one state root.
#[verifier::external_type_specification]
#[verifier::external_body]
pub struct ExStorageProof(sp_state_machine::StorageProof);

/// The state that a storage proof restores below one state root: reads that the proof covers
/// are answered, all others fail. It holds a `sp_state_machine::TrieBackend` over the trie
/// nodes of the proof, hashed with the Blake2 hasher of 256 bits.
#[verifier::external_body]
pub struct ProofBackend {
    inner: sp_state_machine::TrieBackend<
        sp_trie::MemoryDB<sp_runtime::traits::BlakeTwo256>,
        sp_runtime::traits::BlakeTwo256,
    >,
}

/// The runtime code of a state, as far as a call needs it up front: the hash of the code and
/// the heap pages to run it with. The code itself stays in the state.
pub struct RuntimeCode {
    /// The encoded hash of the code.
    pub hash: Vec<u8>,
    /// The heap pages to run the code with, where the state sets them.
    pub heap_pages: Option<u64>,
}

/// The values that an overlay holds for the keys of the main storage; `None` stands for a
/// deleted key.
pub uninterp spec fn overlay_changes(overlay: sp_state_machine::OverlayedChanges) -> Map<Seq<u8>, Option<Seq<u8>>>;

/// Whether an overlay is in use by a runtime call.
pub uninterp spec fn overlay_in_runtime(overlay: sp_state_machine::OverlayedChanges) -> bool;

/// The encoded trie nodes of a storage proof.
pub uninterp spec fn proof_nodes(proof: sp_state_machine::StorageProof) -> Seq<Seq<u8>>;

/// The state root that a restored state answers for.
pub uninterp spec fn backend_root(backend: ProofBackend) -> Seq<u8>;

/// The encoded trie nodes that a restored state was made of, in the order of the proof that
/// it was restored from.
pub uninterp spec fn backend_nodes(backend: ProofBackend) -> Seq<Seq<u8>>;

/// Whether a state is restored from the trie nodes below the state root: whether the nodes
/// lead to the root.
pub uninterp spec fn proof_reaches_root(root: Seq<u8>, nodes: Seq<Seq<u8>>) -> bool;

/// The encoded hash and the heap pages of the runtime code that the trie nodes prove below the
/// state root; `None` where they prove no code.
pub uninterp spec fn proved_runtime_code(root: Seq<u8>, nodes: Seq<Seq<u8>>) -> Option<(Seq<u8>, Option<u64>)>;

/// An overlay as a call starts with: without changes, and in no call's use.
pub open spec fn overlay_is_fresh(overlay: sp_state_machine::OverlayedChanges) -> bool {
    &&& overlay_changes(overlay) == Map::<Seq<u8>, Option<Seq<u8>>>::empty()
    &&& !overlay_in_runtime(overlay)
}

/// `OverlayedChanges::default`: an overlay without changes, not in use by a call.
#[verifier::external_body]
pub(crate) fn fresh_overlay() -> (overlay: sp_state_machine::OverlayedChanges)
    ensures
        overlay_changes(overlay) == (Map::<Seq<u8>, Option<Seq<u8>>>::empty()),
        !overlay_in_runtime(overlay),
{
    sp_state_machine::OverlayedChanges::default()
}

/// `sp_core::convert_hash` between two hashes of 32 bytes: the bytes are copied.
#[verifier::external_body]
pub(crate) fn convert_root(src: &[u8; 32]) -> (root: [u8; 32])
    ensures
        root@ == src@,
{
    sp_core::convert_hash::<[u8; 32], [u8; 32]>(src)
}

/// `sp_state_machine::create_proof_check_backend` with the Blake2 hasher of 256 bits: the
/// state is restored where the nodes of the proof lead to the root, and then answers for that
/// root and is made of those nodes; else the text of the failure comes back.
#[verifier::external_body]
pub(crate) fn proof_check_backend(
    root: [u8; 32],
    proof: sp_state_machine::StorageProof,
) -> (r: Result<ProofBackend, String>)
    ensures
        r.is_ok() == proof_reaches_root(root@, proof_nodes(proof)),
        r matches Ok(backend) ==> backend_root(backend) == root@,
        r matches Ok(backend) ==> backend_nodes(backend) == proof_nodes(proof),
{
    sp_state_machine::create_proof_check_backend::<sp_runtime::traits::BlakeTwo256>(
        sp_core::H256(root),
        proof,
    ).map(|inner| ProofBackend { inner }).map_err(|e| e.to_string())
}

/// `sp_state_machine::backend::BackendRuntimeCode::runtime_code` on a restored state: the hash
/// and the heap pages of the code that the state proves, or the reason why none was found.
/// Which of the two depends on the root and the nodes of the state alone.
#[verifier::external_body]
pub(crate) fn runtime_code(backend: &ProofBackend) -> (r: Result<RuntimeCode, &'static str>)
    ensures
        match r {
            Ok(code) => proved_runtime_code(backend_root(*backend), backend_nodes(*backend))
                == Some((code.hash@, code.heap_pages)),
            Err(_) => proved_runtime_code(backend_root(*backend), backend_nodes(*backend)) is None,
        },
{
    sp_state_machine::backend::BackendRuntimeCode::new(&backend.inner).runtime_code().map(
        |code| RuntimeCode { hash: code.hash, heap_pages: code.heap_pages },
    )
}

/// `sp_state_machine::execution_proof_check_on_trie_backend`: runs the method on the restored
/// state, with the overlay as the write buffer of the call and with the code of that state.
/// The overlay must not be in use by a call, else the run panics; the code must be the one
/// that the state proves, so that no run is made without code. Nothing is claimed of the
/// result, which is the executor's, with a failure as its text.
#[verifier::external_body]
pub(crate) fn execute_on_proof<E, S>(
    backend: &ProofBackend,
    overlay: &mut sp_state_machine::OverlayedChanges,
    executor: &E,
    spawn_handle: S,
    method: &str,
    call_data: &[u8],
    code: &RuntimeCode,
) -> (r: Result<Vec<u8>, String>) where
    E: sp_core::traits::CodeExecutor + Clone + 'static,
    S: sp_core::traits::SpawnNamed + Send + 'static,

    requires
        !overlay_in_runtime(*old(overlay)),
        proved_runtime_code(backend_root(*backend), backend_nodes(*backend)) == Some(
            (code.hash@, code.heap_pages),
        ),
{
    let source = sp_state_machine::backend::BackendRuntimeCode::new(&backend.inner);
    let code = sp_core::traits::RuntimeCode {
        code_fetcher: &source,
        heap_pages: code.heap_pages,
        hash: code.hash.clone(),
    };
    sp_state_machine::execution_proof_check_on_trie_backend::<_, u64, _, _>(
        &backend.inner, overlay, executor, spawn_handle, method, call_data, &code,
    ).map_err(|e| e.to_string())
}

} // verus!
