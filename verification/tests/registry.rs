use df_handle_registry::registry::{Registry, RegistryError};

#[test]
fn two_creates_give_distinct_nonzero_handles() {
    let mut reg = Registry::new();
    let h1 = reg.create_session().unwrap();
    let h2 = reg.create_session().unwrap();
    assert_ne!(h1, 0);
    assert_ne!(h2, 0);
    assert_ne!(h1, h2);
}

#[test]
fn double_close_session_is_rejected() {
    let mut reg = Registry::new();
    let h1 = reg.create_session().unwrap();
    assert_eq!(reg.close_session(h1), Ok(()));
    assert_eq!(reg.close_session(h1), Err(RegistryError::InvalidHandle));
}

#[test]
fn close_leaves_other_sessions_valid() {
    let mut reg = Registry::new();
    let h1 = reg.create_session().unwrap();
    let h2 = reg.create_session().unwrap();
    let h3 = reg.create_session().unwrap();
    assert_eq!(reg.close_session(h2), Ok(()));
    assert_eq!(reg.close_session(h1), Ok(()));
    assert_eq!(reg.close_session(h3), Ok(()));
}

#[test]
fn close_on_fresh_registry_is_rejected() {
    let mut reg = Registry::new();
    assert_eq!(reg.close_session(42), Err(RegistryError::InvalidHandle));
    assert_eq!(reg.close_global_runtime(42), Err(RegistryError::InvalidHandle));
}

#[test]
fn runtime_lifecycle_and_double_close() {
    let mut reg = Registry::new();
    let h = reg.create_global_runtime().unwrap();
    assert_ne!(h, 0);
    assert_eq!(reg.close_global_runtime(h), Ok(()));
    assert_eq!(reg.close_global_runtime(h), Err(RegistryError::InvalidHandle));
}

#[test]
fn session_and_runtime_handles_never_alias() {
    let mut reg = Registry::new();
    let s = reg.create_session().unwrap();
    let r = reg.create_global_runtime().unwrap();
    assert_ne!(s, r);
    // A session handle is not a runtime handle and vice versa.
    assert_eq!(reg.close_global_runtime(s), Err(RegistryError::InvalidHandle));
    assert_eq!(reg.close_session(r), Err(RegistryError::InvalidHandle));
    assert_eq!(reg.close_session(s), Ok(()));
    assert_eq!(reg.close_global_runtime(r), Ok(()));
}

#[test]
fn register_prebuilt_resources() {
    let mut reg = Registry::new();
    let config = datafusion::prelude::SessionConfig::new().with_repartition_aggregations(true);
    let ctx = datafusion::execution::context::SessionContext::new_with_config(config);
    let hs = reg.register_session(ctx).unwrap();
    assert_ne!(hs, 0);
    let env = datafusion::execution::runtime_env::RuntimeEnvBuilder::default()
        .build()
        .unwrap();
    let hr = reg.register_runtime(env).unwrap();
    assert_ne!(hr, 0);
    assert_ne!(hs, hr);
    assert_eq!(reg.close_session(hs), Ok(()));
    assert_eq!(reg.close_global_runtime(hr), Ok(()));
}

#[test]
fn interleaved_lifecycle_destroys_each_exactly_once() {
    let mut reg = Registry::new();
    let s1 = reg.create_session().unwrap();
    let r1 = reg.create_global_runtime().unwrap();
    let s2 = reg.create_session().unwrap();
    let handles = [s1, r1, s2];
    for i in 0..handles.len() {
        for j in 0..handles.len() {
            if i != j {
                assert_ne!(handles[i], handles[j]);
            }
        }
    }
    assert_eq!(reg.close_session(s1), Ok(()));
    assert_eq!(reg.close_session(s2), Ok(()));
    assert_eq!(reg.close_global_runtime(r1), Ok(()));
    // Everything is gone: every further close must be rejected.
    assert_eq!(reg.close_session(s1), Err(RegistryError::InvalidHandle));
    assert_eq!(reg.close_session(s2), Err(RegistryError::InvalidHandle));
    assert_eq!(reg.close_global_runtime(r1), Err(RegistryError::InvalidHandle));
}
