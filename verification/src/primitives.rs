//! The values that pass through a call executor unread. Each is a type of the runtime's
//! interface, known here by name only.

use vstd::prelude::*;

verus! {

/// `sp_state_machine::ExecutionStrategy`: the strategy that a caller asks for.
#[verifier::external_type_specification]
#[verifier::external_body]
pub struct ExExecutionStrategy(sp_state_machine::ExecutionStrategy);

/// `sp_externalities::Extensions`: the extensions that a call may use.
#[verifier::external_type_specification]
#[verifier::external_body]
pub struct ExExtensions(sp_externalities::Extensions);

/// `sc_executor::RuntimeVersion`: the version of the runtime in the state of a block.
#[verifier::external_type_specification]
#[verifier::external_body]
pub struct ExRuntimeVersion(sc_executor::RuntimeVersion);

/// `sc_executor::NativeVersion`: the version of a runtime that an executor holds natively.
#[verifier::external_type_specification]
#[verifier::external_body]
pub struct ExNativeVersion(sc_executor::NativeVersion);

/// `sp_core::NativeOrEncoded`: the result of a call, as a value or as its encoding.
#[verifier::external_type_specification]
#[verifier::external_body]
#[verifier::reject_recursive_types(R)]
pub struct ExNativeOrEncoded<R>(sp_core::NativeOrEncoded<R>);

/// `std::cell::RefCell`: a value that is borrowed at run time.
#[verifier::external_type_specification]
#[verifier::external_body]
#[verifier::reject_recursive_types(T)]
pub struct ExRefCell<T: ?Sized>(std::cell::RefCell<T>);

} // verus!
