use wasmtime_embed::context::ContextSet;
use wasmtime_embed::error::TrappedInvoke;
use wasmtime_embed::export::{invoke_result, InvokeOutcome, Value};
use wasmtime_embed::instantiate::{plan_instantiation, ImportRequest, ImportSource};

fn set_of(ids: &[u64]) -> ContextSet {
    let mut s = ContextSet::new();
    for id in ids {
        s.insert(*id);
    }
    s
}

fn sorted(s: &ContextSet) -> Vec<u64> {
    let mut v = s.ids().clone();
    v.sort();
    v
}

#[test]
fn context_set_keeps_one_copy_of_each_identity() {
    let mut s = set_of(&[3, 1, 3, 2, 1]);
    assert_eq!(s.ids(), &vec![3, 1, 2]);
    assert!(s.contains(2));
    assert!(!s.contains(4));
    s.extend(&set_of(&[2, 4]));
    assert_eq!(s.ids(), &vec![3, 1, 2, 4]);
}

#[test]
fn no_imports_depends_on_own_context() {
    let deps = plan_instantiation(&vec![], 7).unwrap();
    assert_eq!(sorted(&deps), vec![7]);
}

#[test]
fn importer_depends_on_everything_imported() {
    let a = set_of(&[10, 11]);
    let l0 = set_of(&[20]);
    let imports = vec![
        ImportRequest { name: "gcd".to_string(), source: ImportSource::InstanceExports(a.clone()) },
        ImportRequest { name: "test".to_string(), source: ImportSource::InstanceExports(l0) },
    ];
    let deps = plan_instantiation(&imports, 30).unwrap();
    assert_eq!(sorted(&deps), vec![10, 11, 20, 30]);
    for id in a.ids() {
        assert!(deps.contains(*id));
    }
}

#[test]
fn shared_context_is_held_once() {
    let wasi = set_of(&[5]);
    let imports = vec![ImportRequest {
        name: "wasi_unstable".to_string(),
        source: ImportSource::InstanceExports(wasi),
    }];
    let deps = plan_instantiation(&imports, 5).unwrap();
    assert_eq!(deps.ids(), &vec![5]);
}

#[test]
fn field_map_provider_is_unsupported() {
    let imports = vec![
        ImportRequest { name: "ok".to_string(), source: ImportSource::InstanceExports(set_of(&[1])) },
        ImportRequest { name: "env".to_string(), source: ImportSource::Fields },
        ImportRequest { name: "other".to_string(), source: ImportSource::Fields },
    ];
    match plan_instantiation(&imports, 2) {
        Err(e) => assert_eq!(e.0, "env"),
        Ok(_) => panic!("a field map provider must be refused"),
    }
}

#[test]
fn returned_values_pass_through() {
    let r = invoke_result("gcd", InvokeOutcome::Returned(vec![Value::I32(3)]));
    assert_eq!(r.unwrap(), vec![Value::I32(3)]);
}

#[test]
fn trap_names_function_and_message() {
    let r = invoke_result("gcd", InvokeOutcome::Trapped("unreachable".to_string()));
    match r {
        Err(TrappedInvoke(name, message)) => {
            assert_eq!(name, "gcd");
            assert_eq!(message, "unreachable");
        }
        Ok(_) => panic!("a trap must be an error"),
    }
}
