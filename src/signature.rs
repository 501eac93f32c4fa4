//! Native call signatures, described completely (value types, parameter
//! purposes, extensions, locations, calling conventions), and their exact
//! comparison.
use vstd::prelude::*;

verus! {

/// The value type of a parameter or result of a native signature.
#[derive(Clone, Copy, Debug, PartialEq, Eq, Structural)]
pub enum ValueType {
    I32,
    I64,
    F32,
    F64,
    /// Any other type of the code generator, by its type index.
    Other(u8),
}

/// The special role of a parameter or result, if any.
#[derive(Clone, Copy, Debug, PartialEq, Eq, Structural)]
pub enum ArgumentPurpose {
    /// An ordinary program value.
    Normal,
    StructReturn,
    Link,
    FramePointer,
    CalleeSaved,
    /// The pointer to the calling instance's execution state.
    VMContext,
    SignatureId,
    StackLimit,
}

/// How a small integer is widened to a full register.
#[derive(Clone, Copy, Debug, PartialEq, Eq, Structural)]
pub enum ArgumentExtension {
    /// High bits are left indeterminate.
    NoExtension,
    /// High bits are zero.
    Uext,
    /// High bits replicate the sign bit.
    Sext,
}

/// Where a parameter is passed.
#[derive(Clone, Copy, Debug, PartialEq, Eq, Structural)]
pub enum ArgumentLoc {
    /// Not yet assigned.
    Unassigned,
    /// In the register with this unit number.
    Reg(u16),
    /// On the stack, at this byte offset into the argument area.
    Stack(i32),
}

/// One parameter or result of a native signature, described completely: two
/// parameters are the same exactly when all four parts agree.
#[derive(Clone, Copy, Debug, PartialEq, Eq, Structural)]
pub struct AbiParam {
    pub value_type: ValueType,
    pub purpose: ArgumentPurpose,
    pub extension: ArgumentExtension,
    pub location: ArgumentLoc,
}

/// An ordinary parameter of type `t`, not extended and not yet placed.
pub open spec fn normal_param(t: ValueType) -> AbiParam {
    AbiParam {
        value_type: t,
        purpose: ArgumentPurpose::Normal,
        extension: ArgumentExtension::NoExtension,
        location: ArgumentLoc::Unassigned,
    }
}

/// The 64-bit pointer to the calling instance's execution state.
pub open spec fn vm_context_param() -> AbiParam {
    AbiParam {
        value_type: ValueType::I64,
        purpose: ArgumentPurpose::VMContext,
        extension: ArgumentExtension::NoExtension,
        location: ArgumentLoc::Unassigned,
    }
}

impl AbiParam {
    /// An ordinary parameter of type `t`, not extended and not yet placed.
    pub fn new(t: ValueType) -> (r: AbiParam)
        ensures
            r == normal_param(t),
    {
        AbiParam {
            value_type: t,
            purpose: ArgumentPurpose::Normal,
            extension: ArgumentExtension::NoExtension,
            location: ArgumentLoc::Unassigned,
        }
    }

    /// The 64-bit pointer to the calling instance's execution state.
    pub fn vm_context() -> (r: AbiParam)
        ensures
            r == vm_context_param(),
    {
        AbiParam {
            value_type: ValueType::I64,
            purpose: ArgumentPurpose::VMContext,
            extension: ArgumentExtension::NoExtension,
            location: ArgumentLoc::Unassigned,
        }
    }
}

/// A calling convention.
#[derive(Clone, Copy, Debug, PartialEq, Eq, Structural)]
pub enum CallConv {
    Fast,
    Cold,
    SystemV,
    WindowsFastcall,
    BaldrdashSystemV,
    BaldrdashWindows,
    Probestack,
}

/// A native signature: ordered parameters, ordered results, calling convention.
#[derive(Clone, Debug)]
pub struct Signature {
    pub params: Vec<AbiParam>,
    pub returns: Vec<AbiParam>,
    pub call_conv: CallConv,
}

/// The mathematical value of a signature.
pub struct SignatureView {
    pub params: Seq<AbiParam>,
    pub returns: Seq<AbiParam>,
    pub call_conv: CallConv,
}

impl View for Signature {
    type V = SignatureView;

    open spec fn view(&self) -> SignatureView {
        SignatureView { params: self.params@, returns: self.returns@, call_conv: self.call_conv }
    }
}

/// An element-by-element copy of a parameter list.
fn copy_params(a: &Vec<AbiParam>) -> (r: Vec<AbiParam>)
    ensures
        r@ == a@,
{
    let mut r: Vec<AbiParam> = Vec::new();
    let mut i: usize = 0;
    while i < a.len()
        invariant
            i <= a@.len(),
            r@ == a@.subrange(0, i as int),
        decreases a@.len() - i,
    {
        r.push(a[i]);
        i = i + 1;
    }
    assert(a@.subrange(0, a@.len() as int) =~= a@);
    r
}

impl Signature {
    /// A copy with the same parameters, results and calling convention.
    pub fn duplicate(&self) -> (r: Signature)
        ensures
            r@ == self@,
    {
        Signature {
            params: copy_params(&self.params),
            returns: copy_params(&self.returns),
            call_conv: self.call_conv,
        }
    }
}

/// Whether two parameter lists are element-by-element the same.
fn same_params(a: &Vec<AbiParam>, b: &Vec<AbiParam>) -> (r: bool)
    ensures
        r == (a@ == b@),
{
    if a.len() != b.len() {
        return false;
    }
    let mut i: usize = 0;
    while i < a.len()
        invariant
            a@.len() == b@.len(),
            i <= a@.len(),
            forall|j: int| 0 <= j < i ==> a@[j] == b@[j],
        decreases a@.len() - i,
    {
        if a[i] != b[i] {
            return false;
        }
        i = i + 1;
    }
    assert(a@ =~= b@);
    true
}

/// Whether two signatures agree in parameters, results and calling convention.
pub fn same_signature(a: &Signature, b: &Signature) -> (r: bool)
    ensures
        r == (a@ == b@),
{
    same_params(&a.params, &b.params) && same_params(&a.returns, &b.returns) && a.call_conv
        == b.call_conv
}

} // verus!
