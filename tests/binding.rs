use wasmtime_embed::binding::{
    bind_interface, convert_interface, convert_method_sig, convert_type, plan_host_module,
    BindingError, HostModuleError, MethodDecl, ProxyError,
};
use wasmtime_embed::export::{check_callable_export, CallableExportError, ExportKind};
use wasmtime_embed::signature::{same_signature, AbiParam, CallConv, Signature, ValueType};
use wasmtime_embed::signature::{ArgumentExtension, ArgumentLoc};

fn method(name: &str, has_receiver: bool, params: &[&str], returns: Option<&str>) -> MethodDecl {
    MethodDecl {
        name: name.to_string(),
        has_receiver,
        params: params.iter().map(|p| p.to_string()).collect(),
        returns: returns.map(|r| r.to_string()),
    }
}

fn gcd_signature() -> Signature {
    Signature {
        params: vec![
            AbiParam::vm_context(),
            AbiParam::new(ValueType::I32),
            AbiParam::new(ValueType::I32),
        ],
        returns: vec![AbiParam::new(ValueType::I32)],
        call_conv: CallConv::SystemV,
    }
}

#[test]
fn supported_type_names() {
    assert_eq!(convert_type("u32"), Some(ValueType::I32));
    assert_eq!(convert_type("u64"), Some(ValueType::I64));
    assert_eq!(convert_type("f32"), Some(ValueType::F32));
    assert_eq!(convert_type("f64"), Some(ValueType::F64));
    assert_eq!(convert_type("i32"), Some(ValueType::I32));
    assert_eq!(convert_type("i64"), Some(ValueType::I64));
    assert_eq!(convert_type("i8"), None);
    assert_eq!(convert_type("String"), None);
    assert_eq!(convert_type(""), None);
}

#[test]
fn method_signature_of_gcd() {
    let m = method("gcd", true, &["u32", "u32"], Some("u32"));
    let s = convert_method_sig(&m).unwrap();
    assert!(same_signature(&s, &gcd_signature()));
    assert_eq!(s.params, gcd_signature().params);
    assert_eq!(s.returns, gcd_signature().returns);
    assert_eq!(s.call_conv, CallConv::SystemV);
}

#[test]
fn method_signature_without_result() {
    let m = method("callback", true, &["u32"], None);
    let s = convert_method_sig(&m).unwrap();
    assert_eq!(s.params, vec![AbiParam::vm_context(), AbiParam::new(ValueType::I32)]);
    assert!(s.returns.is_empty());
}

#[test]
fn method_signature_of_floats_and_wide_integers() {
    let m = method("mix", true, &["f64", "u64", "f32"], Some("f32"));
    let s = convert_method_sig(&m).unwrap();
    assert_eq!(
        s.params,
        vec![
            AbiParam::vm_context(),
            AbiParam::new(ValueType::F64),
            AbiParam::new(ValueType::I64),
            AbiParam::new(ValueType::F32),
        ]
    );
    assert_eq!(s.returns, vec![AbiParam::new(ValueType::F32)]);
}

#[test]
fn method_without_receiver_is_rejected() {
    let m = method("gcd", false, &["u32", "u32"], Some("u32"));
    assert!(matches!(convert_method_sig(&m), Err(BindingError::MissingReceiver)));
}

#[test]
fn unsupported_parameter_type_is_rejected() {
    let m = method("f", true, &["u32", "String", "i8"], None);
    match convert_method_sig(&m) {
        Err(BindingError::UnsupportedType(t)) => assert_eq!(t, "String"),
        other => panic!("unexpected {:?}", other),
    }
}

#[test]
fn unsupported_result_type_is_rejected() {
    let m = method("f", true, &["u32"], Some("bool"));
    match convert_method_sig(&m) {
        Err(BindingError::UnsupportedType(t)) => assert_eq!(t, "bool"),
        other => panic!("unexpected {:?}", other),
    }
}

#[test]
fn matching_export_binds() {
    let export = Some(ExportKind::Function(gcd_signature()));
    assert!(check_callable_export("gcd", &export, &gcd_signature()).is_ok());
}

#[test]
fn altered_parameter_type_is_a_mismatch() {
    let export = Some(ExportKind::Function(gcd_signature()));
    let mut wanted = gcd_signature();
    wanted.params[2] = AbiParam::new(ValueType::I64);
    match check_callable_export("gcd", &export, &wanted) {
        Err(CallableExportError::NotValidForSig(e)) => {
            assert_eq!(e.0, "gcd");
            assert_eq!(e.1.params, gcd_signature().params);
            assert_eq!(e.2.params, wanted.params);
        }
        other => panic!("unexpected {:?}", other),
    }
}

#[test]
fn altered_calling_convention_is_a_mismatch() {
    let export = Some(ExportKind::Function(gcd_signature()));
    let mut wanted = gcd_signature();
    wanted.call_conv = CallConv::Fast;
    assert!(matches!(
        check_callable_export("gcd", &export, &wanted),
        Err(CallableExportError::NotValidForSig(_))
    ));
}

#[test]
fn missing_or_non_function_export_is_not_found() {
    match check_callable_export("gcd", &None, &gcd_signature()) {
        Err(CallableExportError::NotFound(e)) => assert_eq!(e.0, "gcd"),
        other => panic!("unexpected {:?}", other),
    }
    let mem = Some(ExportKind::Memory { size: 65536 });
    assert!(matches!(
        check_callable_export("memory", &mem, &gcd_signature()),
        Err(CallableExportError::NotFound(_))
    ));
}

#[test]
fn interface_signatures_in_order() {
    let ms = vec![
        method("gcd", true, &["u32", "u32"], Some("u32")),
        method("test", true, &[], Some("u32")),
    ];
    let sigs = convert_interface(&ms).unwrap();
    assert_eq!(sigs.len(), 2);
    assert!(same_signature(&sigs[0], &gcd_signature()));
    assert_eq!(sigs[1].params, vec![AbiParam::vm_context()]);
}

#[test]
fn interface_fails_on_first_bad_method() {
    let ms = vec![
        method("a", true, &["u32"], None),
        method("b", true, &["u16"], None),
        method("c", false, &[], None),
    ];
    match convert_interface(&ms) {
        Err(BindingError::UnsupportedType(t)) => assert_eq!(t, "u16"),
        other => panic!("unexpected {:?}", other),
    }
}

#[test]
fn proxy_binds_every_method() {
    let ms = vec![
        method("gcd", true, &["u32", "u32"], Some("u32")),
        method("test", true, &[], Some("u32")),
    ];
    let test_sig = Signature {
        params: vec![AbiParam::vm_context()],
        returns: vec![AbiParam::new(ValueType::I32)],
        call_conv: CallConv::SystemV,
    };
    let exports = vec![
        Some(ExportKind::Function(gcd_signature())),
        Some(ExportKind::Function(test_sig)),
    ];
    let bound = bind_interface(&ms, &exports).unwrap();
    assert_eq!(bound.len(), 2);
    assert!(same_signature(&bound[0], &gcd_signature()));
}

#[test]
fn proxy_construction_fails_if_any_method_fails() {
    let ms = vec![
        method("gcd", true, &["u32", "u32"], Some("u32")),
        method("test", true, &[], Some("u32")),
    ];
    let exports = vec![Some(ExportKind::Function(gcd_signature())), None];
    match bind_interface(&ms, &exports) {
        Err(ProxyError::Export(k, CallableExportError::NotFound(e))) => {
            assert_eq!(k, 1);
            assert_eq!(e.0, "test");
        }
        other => panic!("unexpected {:?}", other),
    }
    let bad = vec![method("gcd", true, &["i16"], None)];
    assert!(matches!(
        bind_interface(&bad, &vec![Some(ExportKind::Global)]),
        Err(ProxyError::Binding(BindingError::UnsupportedType(_)))
    ));
}

#[test]
fn duplicate_signature_is_the_same() {
    let s = gcd_signature();
    let d = s.duplicate();
    assert!(same_signature(&s, &d));
    assert_eq!(d.params, s.params);
    assert_eq!(d.returns, s.returns);
    let mut other = s.duplicate();
    other.returns.clear();
    assert!(!same_signature(&s, &other));
}

#[test]
fn identical_signature_with_unusual_parameters_binds() {
    let mut declared = gcd_signature();
    declared.params[1].extension = ArgumentExtension::Sext;
    declared.params[2].value_type = ValueType::Other(0x77);
    let export = Some(ExportKind::Function(declared.duplicate()));
    assert!(check_callable_export("f", &export, &declared).is_ok());
    let mut other = declared.duplicate();
    other.params[1].extension = ArgumentExtension::Uext;
    match check_callable_export("f", &export, &other) {
        Err(CallableExportError::NotValidForSig(e)) => {
            assert_eq!(e.0, "f");
            assert_eq!(e.1.params, declared.params);
            assert_eq!(e.2.params, other.params);
        }
        other => panic!("unexpected {:?}", other),
    }
    let mut moved = declared.duplicate();
    moved.params[2].location = ArgumentLoc::Stack(8);
    assert!(check_callable_export("f", &export, &moved).is_err());
    let mut widened = declared.duplicate();
    widened.params[2].value_type = ValueType::Other(0x78);
    assert!(check_callable_export("f", &export, &widened).is_err());
}

#[test]
fn host_module_needs_one_function_per_method() {
    let ms = vec![method("callback", true, &["u32"], None)];
    let sigs = plan_host_module(&ms, 1).unwrap();
    assert_eq!(sigs.len(), 1);
    assert_eq!(sigs[0].params, vec![AbiParam::vm_context(), AbiParam::new(ValueType::I32)]);
    match plan_host_module(&ms, 2) {
        Err(HostModuleError::FunctionCount(m, f)) => assert_eq!((m, f), (1, 2)),
        other => panic!("unexpected {:?}", other),
    }
    let bad = vec![method("callback", false, &["u32"], None)];
    assert!(matches!(
        plan_host_module(&bad, 1),
        Err(HostModuleError::Binding(BindingError::MissingReceiver))
    ));
}

#[test]
fn proxy_reports_first_mismatched_method() {
    let ms = vec![
        method("gcd", true, &["u32", "u32"], Some("u32")),
        method("test", true, &[], Some("u32")),
    ];
    let mut wrong = gcd_signature();
    wrong.params[1] = AbiParam::new(ValueType::I64);
    let exports = vec![Some(ExportKind::Function(wrong)), None];
    match bind_interface(&ms, &exports) {
        Err(ProxyError::Export(k, CallableExportError::NotValidForSig(e))) => {
            assert_eq!(k, 0);
            assert_eq!(e.0, "gcd");
        }
        other => panic!("unexpected {:?}", other),
    }
}
