//! Instantiation planning: which import providers are supported, and which
//! execution contexts a new instance must keep alive.
use vstd::prelude::*;

use crate::context::{ContextId, ContextSet};

verus! {

/// How a named import is to be satisfied.
#[derive(Clone, Debug)]
pub enum ImportSource {
    /// The whole export table of another instance, which depends on these contexts.
    InstanceExports(ContextSet),
    /// A field-by-field map of values and functions; declared, not supported.
    Fields,
}

/// A named import provider.
#[derive(Clone, Debug)]
pub struct ImportRequest {
    pub name: String,
    pub source: ImportSource,
}

/// A provider of a kind that instantiation does not support; holds the import's name.
#[derive(Clone, Debug)]
pub struct UnsupportedProvider(pub String);

/// The contexts that an instance created in `context` with these imports
/// depends on: `context` and every context of every imported instance; or
/// the name of the first import whose provider is not supported.
pub open spec fn dependencies(imports: Seq<ImportRequest>, context: ContextId) -> Result<
    Set<ContextId>,
    Seq<char>,
>
    decreases imports.len(),
{
    if imports.len() == 0 {
        Ok(set![context])
    } else {
        match dependencies(imports.drop_last(), context) {
            Err(n) => Err(n),
            Ok(d) => match imports.last().source {
                ImportSource::InstanceExports(c) => Ok(d.union(c@)),
                ImportSource::Fields => Err(imports.last().name@),
            },
        }
    }
}

/// A failure in a prefix of the imports is the failure of the whole list.
proof fn lemma_dependencies_prefix_err(imports: Seq<ImportRequest>, context: ContextId, k: int)
    requires
        0 <= k <= imports.len(),
        dependencies(imports.subrange(0, k), context) is Err,
    ensures
        dependencies(imports, context) == dependencies(imports.subrange(0, k), context),
    decreases imports.len() - k,
{
    if k < imports.len() {
        assert(imports.subrange(0, k + 1).drop_last() =~= imports.subrange(0, k));
        lemma_dependencies_prefix_err(imports, context, k + 1);
    } else {
        assert(imports.subrange(0, k) =~= imports);
    }
}

/// Checks every provider before anything is registered, and gathers the
/// contexts the new instance depends on. Fails, naming the import, on the
/// first provider that is not an instance's export table.
pub fn plan_instantiation(imports: &Vec<ImportRequest>, context: ContextId) -> (r: Result<
    ContextSet,
    UnsupportedProvider,
>)
    ensures
        match dependencies(imports@, context) {
            Ok(d) => r matches Ok(c) && c.wf() && c@ == d,
            Err(n) => r matches Err(e) && e.0@ == n,
        },
{
    let mut deps = ContextSet::new();
    deps.insert(context);
    assert(deps@ =~= set![context]);
    let mut i: usize = 0;
    while i < imports.len()
        invariant
            i <= imports@.len(),
            deps.wf(),
            dependencies(imports@.subrange(0, i as int), context) == Ok::<
                Set<ContextId>,
                Seq<char>,
            >(deps@),
        decreases imports@.len() - i,
    {
        proof {
            assert(imports@.subrange(0, i + 1).drop_last() =~= imports@.subrange(0, i as int));
        }
        match &imports[i].source {
            ImportSource::InstanceExports(c) => {
                deps.extend(c);
            },
            ImportSource::Fields => {
                proof {
                    lemma_dependencies_prefix_err(imports@, context, i + 1);
                }
                return Err(UnsupportedProvider(imports[i].name.clone()));
            },
        }
        i = i + 1;
    }
    assert(imports@.subrange(0, imports@.len() as int) =~= imports@);
    Ok(deps)
}

/// The context an instance is created in is among its dependencies.
pub proof fn dependencies_include_own_context(imports: Seq<ImportRequest>, context: ContextId)
    requires
        dependencies(imports, context) is Ok,
    ensures
        dependencies(imports, context)->Ok_0.contains(context),
    decreases imports.len(),
{
    if imports.len() > 0 {
        dependencies_include_own_context(imports.drop_last(), context);
    }
}

/// An instance that imports another instance's export table depends on every
/// context that the imported instance depends on: its dependency set is a
/// superset of the imported one's.
pub proof fn dependencies_cover_imported(
    imports: Seq<ImportRequest>,
    context: ContextId,
    k: int,
    imported: ContextSet,
)
    requires
        0 <= k < imports.len(),
        imports[k].source == ImportSource::InstanceExports(imported),
        dependencies(imports, context) is Ok,
    ensures
        imported@.subset_of(dependencies(imports, context)->Ok_0),
    decreases imports.len(),
{
    if k < imports.len() - 1 {
        assert(imports.drop_last()[k] == imports[k]);
        dependencies_cover_imported(imports.drop_last(), context, k, imported);
    }
}

} // verus!
