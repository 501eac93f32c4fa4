//! The binding generator's rules: which declared types a binding may carry,
//! the native signature derived from a declared method, and the all-or-nothing
//! resolution of an interface against an instance's exports.
use vstd::prelude::*;

use crate::export::{binds, check_callable_export, refusal, CallableExportError, ExportKind};
use crate::signature::{normal_param, vm_context_param, AbiParam, CallConv, Signature};
use crate::signature::{SignatureView, ValueType};

verus! {

/// A method of a declared interface, as written: its name, whether it takes
/// the receiver that stands for the calling instance's execution state, the
/// type names of its explicit parameters, and the type name of its result.
#[derive(Clone, Debug)]
pub struct MethodDecl {
    pub name: String,
    pub has_receiver: bool,
    pub params: Vec<String>,
    pub returns: Option<String>,
}

/// The mathematical value of a method declaration.
pub struct MethodDeclView {
    pub name: Seq<char>,
    pub has_receiver: bool,
    pub params: Seq<Seq<char>>,
    pub returns: Option<Seq<char>>,
}

impl View for MethodDecl {
    type V = MethodDeclView;

    open spec fn view(&self) -> MethodDeclView {
        MethodDeclView {
            name: self.name@,
            has_receiver: self.has_receiver,
            params: self.params@.map_values(|s: String| s@),
            returns: match self.returns {
                Some(t) => Some(t@),
                None => None,
            },
        }
    }
}

/// Why a declared method cannot be given a binding.
#[derive(Clone, Debug)]
pub enum BindingError {
    /// The method lacks the receiver that stands for the execution state.
    MissingReceiver,
    /// A parameter or the result has a type that is not a supported scalar.
    UnsupportedType(String),
}

/// The mathematical value of a binding error.
pub enum BindingFailure {
    MissingReceiver,
    UnsupportedType(Seq<char>),
}

impl View for BindingError {
    type V = BindingFailure;

    open spec fn view(&self) -> BindingFailure {
        match self {
            BindingError::MissingReceiver => BindingFailure::MissingReceiver,
            BindingError::UnsupportedType(t) => BindingFailure::UnsupportedType(t@),
        }
    }
}

/// The value type that a declared type name stands for: the 32- and 64-bit
/// integers, signed or not, and the two float widths; nothing else.
pub open spec fn type_of_name(t: Seq<char>) -> Option<ValueType> {
    if t == "u32"@ || t == "i32"@ {
        Some(ValueType::I32)
    } else if t == "u64"@ || t == "i64"@ {
        Some(ValueType::I64)
    } else if t == "f32"@ {
        Some(ValueType::F32)
    } else if t == "f64"@ {
        Some(ValueType::F64)
    } else {
        None
    }
}

/// The parameters derived from a list of type names, or the first name that
/// is not supported.
pub open spec fn params_of(types: Seq<Seq<char>>) -> Result<Seq<AbiParam>, Seq<char>>
    decreases types.len(),
{
    if types.len() == 0 {
        Ok(Seq::empty())
    } else {
        match params_of(types.drop_last()) {
            Err(t) => Err(t),
            Ok(ps) => match type_of_name(types.last()) {
                None => Err(types.last()),
                Some(v) => Ok(ps.push(normal_param(v))),
            },
        }
    }
}

/// The native signature of a declared method: the execution-state pointer,
/// then one parameter per declared parameter, at most one result, and the
/// System V calling convention.
pub open spec fn method_signature(m: MethodDeclView) -> Result<SignatureView, BindingFailure> {
    if !m.has_receiver {
        Err(BindingFailure::MissingReceiver)
    } else {
        match params_of(m.params) {
            Err(t) => Err(BindingFailure::UnsupportedType(t)),
            Ok(ps) => {
                let params = seq![vm_context_param()] + ps;
                match m.returns {
                    None => Ok(
                        SignatureView {
                            params,
                            returns: Seq::empty(),
                            call_conv: CallConv::SystemV,
                        },
                    ),
                    Some(t) => match type_of_name(t) {
                        None => Err(BindingFailure::UnsupportedType(t)),
                        Some(v) => Ok(
                            SignatureView {
                                params,
                                returns: seq![normal_param(v)],
                                call_conv: CallConv::SystemV,
                            },
                        ),
                    },
                }
            },
        }
    }
}

/// A failure in a prefix of the type names is the failure of the whole list.
proof fn lemma_params_of_prefix_err(types: Seq<Seq<char>>, k: int)
    requires
        0 <= k <= types.len(),
        params_of(types.subrange(0, k)) is Err,
    ensures
        params_of(types) == params_of(types.subrange(0, k)),
    decreases types.len() - k,
{
    if k < types.len() {
        let next = types.subrange(0, k + 1);
        assert(next.drop_last() =~= types.subrange(0, k));
        lemma_params_of_prefix_err(types, k + 1);
    } else {
        assert(types.subrange(0, k) =~= types);
    }
}

/// Whether `name` is exactly `word`.
fn is_named(name: &str, word: &str) -> (r: bool)
    ensures
        r == (name@ == word@),
{
    name.to_owned() == word.to_owned()
}

/// The value type for a declared type name, if it is a supported one.
pub fn convert_type(name: &str) -> (r: Option<ValueType>)
    ensures
        r == type_of_name(name@),
{
    if is_named(name, "u32") || is_named(name, "i32") {
        Some(ValueType::I32)
    } else if is_named(name, "u64") || is_named(name, "i64") {
        Some(ValueType::I64)
    } else if is_named(name, "f32") {
        Some(ValueType::F32)
    } else if is_named(name, "f64") {
        Some(ValueType::F64)
    } else {
        None
    }
}

/// Derives the native signature of a declared method, or says why it has none.
pub fn convert_method_sig(m: &MethodDecl) -> (r: Result<Signature, BindingError>)
    ensures
        match method_signature(m@) {
            Ok(s) => r matches Ok(t) && t@ == s,
            Err(f) => r matches Err(e) && e@ == f,
        },
{
    if !m.has_receiver {
        return Err(BindingError::MissingReceiver);
    }
    let mut params: Vec<AbiParam> = vec![AbiParam::vm_context()];
    let mut i: usize = 0;
    let ghost types = m@.params;
    while i < m.params.len()
        invariant
            m.has_receiver,
            types == m@.params,
            types.len() == m.params@.len(),
            i <= types.len(),
            params_of(types.subrange(0, i as int)) matches Ok(ps) && params@ == seq![
                vm_context_param(),
            ] + ps,
        decreases types.len() - i,
    {
        proof {
            assert(types.subrange(0, i + 1).drop_last() =~= types.subrange(0, i as int));
            assert(types.subrange(0, i + 1).last() == m.params@[i as int]@);
        }
        match convert_type(m.params[i].as_str()) {
            None => {
                proof {
                    lemma_params_of_prefix_err(types, i + 1);
                }
                return Err(BindingError::UnsupportedType(m.params[i].clone()));
            },
            Some(v) => {
                params.push(AbiParam::new(v));
            },
        }
        i = i + 1;
    }
    assert(types.subrange(0, types.len() as int) =~= types);
    let mut results: Vec<AbiParam> = Vec::new();
    match &m.returns {
        None => {},
        Some(t) => match convert_type(t.as_str()) {
            None => {
                return Err(BindingError::UnsupportedType(t.clone()));
            },
            Some(v) => {
                results.push(AbiParam::new(v));
            },
        },
    }
    proof {
        assert(results@ =~= method_signature(m@)->Ok_0.returns);
    }
    Ok(Signature { params, returns: results, call_conv: CallConv::SystemV })
}

/// Why an interface could not be bound to an instance's exports.
#[derive(Clone, Debug)]
pub enum ProxyError {
    /// A method of the interface has no binding at all.
    Binding(BindingError),
    /// The export of the method at this index is absent, not a function, or
    /// of another signature.
    Export(usize, CallableExportError),
}

/// The views of a list of method declarations.
pub open spec fn decls_view(methods: Seq<MethodDecl>) -> Seq<MethodDeclView> {
    methods.map_values(|m: MethodDecl| m@)
}

/// The signatures of all methods of an interface, in order, or the failure
/// of the first method that has none.
pub open spec fn interface_signatures(methods: Seq<MethodDeclView>) -> Result<
    Seq<SignatureView>,
    BindingFailure,
>
    decreases methods.len(),
{
    if methods.len() == 0 {
        Ok(Seq::empty())
    } else {
        match interface_signatures(methods.drop_last()) {
            Err(f) => Err(f),
            Ok(sigs) => match method_signature(methods.last()) {
                Err(f) => Err(f),
                Ok(s) => Ok(sigs.push(s)),
            },
        }
    }
}

/// A failure in a prefix of the methods is the failure of the whole interface.
proof fn lemma_interface_prefix_err(methods: Seq<MethodDeclView>, k: int)
    requires
        0 <= k <= methods.len(),
        interface_signatures(methods.subrange(0, k)) is Err,
    ensures
        interface_signatures(methods) == interface_signatures(methods.subrange(0, k)),
    decreases methods.len() - k,
{
    if k < methods.len() {
        assert(methods.subrange(0, k + 1).drop_last() =~= methods.subrange(0, k));
        lemma_interface_prefix_err(methods, k + 1);
    } else {
        assert(methods.subrange(0, k) =~= methods);
    }
}

/// A derived interface has one signature per method.
proof fn lemma_interface_len(methods: Seq<MethodDeclView>)
    ensures
        interface_signatures(methods) matches Ok(sigs) ==> sigs.len() == methods.len(),
    decreases methods.len(),
{
    if methods.len() > 0 {
        lemma_interface_len(methods.drop_last());
    }
}

/// Derives the signature of every method of an interface, in order; fails with
/// the first method's failure if any method has no binding. This is the
/// validation an interface passes before either adapter is generated from it.
pub fn convert_interface(methods: &Vec<MethodDecl>) -> (r: Result<Vec<Signature>, BindingError>)
    ensures
        match interface_signatures(decls_view(methods@)) {
            Ok(sigs) => r matches Ok(v) && v@.len() == sigs.len() && forall|i: int|
                0 <= i < sigs.len() ==> #[trigger] v@[i]@ == sigs[i],
            Err(f) => r matches Err(e) && e@ == f,
        },
{
    let ghost ms = decls_view(methods@);
    let mut sigs: Vec<Signature> = Vec::new();
    let mut i: usize = 0;
    while i < methods.len()
        invariant
            ms == decls_view(methods@),
            ms.len() == methods@.len(),
            i <= ms.len(),
            interface_signatures(ms.subrange(0, i as int)) matches Ok(ss) && sigs@.len() == i
                && forall|j: int| 0 <= j < i ==> #[trigger] sigs@[j]@ == ss[j],
        decreases ms.len() - i,
    {
        let ghost prev = interface_signatures(ms.subrange(0, i as int))->Ok_0;
        proof {
            assert(ms.subrange(0, i + 1).drop_last() =~= ms.subrange(0, i as int));
            assert(ms.subrange(0, i + 1).last() == methods@[i as int]@);
        }
        match convert_method_sig(&methods[i]) {
            Err(e) => {
                proof {
                    lemma_interface_prefix_err(ms, i + 1);
                }
                return Err(e);
            },
            Ok(s) => {
                let ghost before = sigs@;
                proof {
                    lemma_interface_len(ms.subrange(0, i as int));
                }
                sigs.push(s);
                proof {
                    let now = interface_signatures(ms.subrange(0, i + 1))->Ok_0;
                    assert(now == prev.push(sigs@[i as int]@));
                    assert forall|j: int| 0 <= j < i + 1 implies #[trigger] sigs@[j]@ == now[j] by {
                        if j < i {
                            assert(sigs@[j] == before[j]);
                            assert(before[j]@ == prev[j]);
                        }
                    }
                }
            },
        }
        i = i + 1;
    }
    assert(ms.subrange(0, ms.len() as int) =~= ms);
    proof {
        lemma_interface_len(ms);
    }
    Ok(sigs)
}

/// Whether every method's export, as looked up, is a function whose declared
/// signature is exactly the method's derived one.
pub open spec fn exports_match(sigs: Seq<SignatureView>, exports: Seq<Option<ExportKind>>) -> bool {
    sigs.len() == exports.len() && forall|i: int|
        0 <= i < sigs.len() ==> binds(#[trigger] exports[i], sigs[i])
}

/// Whether `e` is the refusal of method `k`, the first method whose export
/// does not bind to its signature.
pub open spec fn first_refused(
    e: CallableExportError,
    methods: Seq<MethodDecl>,
    exports: Seq<Option<ExportKind>>,
    sigs: Seq<SignatureView>,
    k: int,
) -> bool {
    &&& 0 <= k < sigs.len()
    &&& forall|j: int| 0 <= j < k ==> binds(#[trigger] exports[j], sigs[j])
    &&& !binds(exports[k], sigs[k])
    &&& refusal(e, methods[k].name@, exports[k], sigs[k])
}

/// Resolves a whole interface against an instance's exports, where
/// `exports[i]` is what the instance exports under the name of `methods[i]`.
/// Either every method binds, and the result holds each method's signature in
/// order, or construction fails and nothing is bound.
pub fn bind_interface(methods: &Vec<MethodDecl>, exports: &Vec<Option<ExportKind>>) -> (r: Result<
    Vec<Signature>,
    ProxyError,
>)
    requires
        exports@.len() == methods@.len(),
    ensures
        interface_signatures(decls_view(methods@)) matches Err(f) ==> (r matches Err(
            ProxyError::Binding(e),
        ) && e@ == f),
        interface_signatures(decls_view(methods@)) matches Ok(sigs) ==> ((r is Ok)
            == exports_match(sigs, exports@)),
        r matches Ok(v) ==> (interface_signatures(decls_view(methods@)) matches Ok(sigs)
            && v@.len() == sigs.len() && forall|i: int|
            0 <= i < sigs.len() ==> #[trigger] v@[i]@ == sigs[i]),
        interface_signatures(decls_view(methods@)) matches Ok(sigs) ==> (!exports_match(
            sigs,
            exports@,
        ) ==> (r matches Err(ProxyError::Export(k, e)) && first_refused(
            e,
            methods@,
            exports@,
            sigs,
            k as int,
        ))),
{
    let sigs = match convert_interface(methods) {
        Ok(sigs) => sigs,
        Err(e) => {
            return Err(ProxyError::Binding(e));
        },
    };
    let ghost ss = interface_signatures(decls_view(methods@))->Ok_0;
    proof {
        lemma_interface_len(decls_view(methods@));
    }
    let mut i: usize = 0;
    while i < methods.len()
        invariant
            interface_signatures(decls_view(methods@)) == Ok::<Seq<SignatureView>, BindingFailure>(
                ss,
            ),
            ss.len() == sigs@.len() == exports@.len() == methods@.len(),
            forall|j: int| 0 <= j < ss.len() ==> #[trigger] sigs@[j]@ == ss[j],
            i <= ss.len(),
            forall|j: int| 0 <= j < i ==> binds(#[trigger] exports@[j], ss[j]),
        decreases ss.len() - i,
    {
        match check_callable_export(methods[i].name.as_str(), &exports[i], &sigs[i]) {
            Err(e) => {
                assert(sigs@[i as int]@ == ss[i as int]);
                assert(!binds(exports@[i as int], ss[i as int]));
                return Err(ProxyError::Export(i, e));
            },
            Ok(()) => {},
        }
        i = i + 1;
    }
    Ok(sigs)
}

/// Why a module of host functions could not be laid out.
#[derive(Clone, Debug)]
pub enum HostModuleError {
    /// A method of the interface has no binding.
    Binding(BindingError),
    /// The number of host functions differs from the number of methods:
    /// (methods, functions).
    FunctionCount(usize, usize),
}

/// Lays out a module of host functions for an interface: one function per
/// method, in order, with the method's derived signature. Every method must
/// have a binding, and exactly one host function must be given per method.
pub fn plan_host_module(methods: &Vec<MethodDecl>, functions: usize) -> (r: Result<
    Vec<Signature>,
    HostModuleError,
>)
    ensures
        functions != methods@.len() ==> (r matches Err(HostModuleError::FunctionCount(m, f))
            && m == methods@.len() && f == functions),
        functions == methods@.len() ==> match interface_signatures(decls_view(methods@)) {
            Ok(sigs) => r matches Ok(v) && v@.len() == sigs.len() && forall|i: int|
                0 <= i < sigs.len() ==> #[trigger] v@[i]@ == sigs[i],
            Err(f) => r matches Err(HostModuleError::Binding(e)) && e@ == f,
        },
{
    if functions != methods.len() {
        return Err(HostModuleError::FunctionCount(methods.len(), functions));
    }
    match convert_interface(methods) {
        Ok(sigs) => Ok(sigs),
        Err(e) => Err(HostModuleError::Binding(e)),
    }
}

} // verus!
