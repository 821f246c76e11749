//! Trusted boundary to the embedded query engine.
//!
//! The engine itself (planning, execution, caching) is an external
//! collaborator: the registry only constructs, owns and destroys its
//! resources. Every call into the engine crate goes through one of the
//! wrappers below; everything else in this crate is verified.

use vstd::prelude::*;

use datafusion::error::DataFusionError;
use datafusion::execution::context::SessionContext;
use datafusion::execution::runtime_env::{RuntimeEnv, RuntimeEnvBuilder};
use datafusion::prelude::SessionConfig;

verus! {

#[verifier::external_type_specification]
#[verifier::external_body]
pub struct ExSessionContext(SessionContext);

#[verifier::external_type_specification]
#[verifier::external_body]
pub struct ExRuntimeEnv(RuntimeEnv);

#[verifier::external_type_specification]
#[verifier::external_body]
pub struct ExDataFusionError(DataFusionError);

/// Relies on `SessionConfig::new`, `SessionConfig::with_repartition_aggregations`
/// and `SessionContext::new_with_config`: builds a fresh session context with
/// repartitioned aggregation enabled. None of these constructors can fail.
/// The context is opaque here; the registry only owns and later drops it.
#[verifier::external_body]
pub(crate) fn new_session_context() -> SessionContext {
    let config = SessionConfig::new().with_repartition_aggregations(true);
    SessionContext::new_with_config(config)
}

/// Relies on `RuntimeEnvBuilder::default().build()`: constructs a runtime
/// environment with the default disk manager, memory pool, cache manager and
/// object-store registry. Building the default disk manager can fail, in
/// which case the engine's own error is returned.
#[verifier::external_body]
pub(crate) fn build_runtime_env() -> Result<RuntimeEnv, DataFusionError> {
    RuntimeEnvBuilder::default().build()
}

/// Relies on `datafusion::DATAFUSION_VERSION`: the engine's version constant,
/// which in the engine version this crate is built against is the fixed
/// literal "55.2.0".
#[verifier::external_body]
pub(crate) fn engine_version() -> (r: String)
    ensures
        r@ == "55.2.0"@,
{
    datafusion::DATAFUSION_VERSION.to_string()
}

} // verus!
