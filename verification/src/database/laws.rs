//! What holds of the database across its operations.

use vstd::prelude::*;

use super::store::{Database, GenericParameterScopeData, ModuleData, Symbol};
use super::{GenericParameterId, GenericParameterScopeId, ModuleId};
use crate::interner::IdentifierId;

verus! {

/// A name that was just added to a module as an item stands for that item
/// in the module, whatever submodule has the same name; every other name
/// stands for what it stood for before.
pub proof fn lemma_module_item_read_after_write(
    before: Database,
    after: Database,
    module: ModuleId,
    name: IdentifierId,
    symbol: Symbol,
    other: IdentifierId,
)
    requires
        before.has_module(module),
        after.module_data(module).module_item_symbols@ == before.module_data(
            module,
        ).module_item_symbols@.insert(name, symbol),
        after@ == before.with_module(
            module,
            (ModuleData {
                module_item_symbols: after.module_data(module).module_item_symbols,
                ..before.module_data(module)
            }),
        ),
        other != name,
    ensures
        after.has_module(module),
        after.module_symbol(module, name) == Some(symbol),
        after.module_symbol(module, other) == before.module_symbol(module, other),
{
}

/// The chain of parent scopes is kept by a change that keeps the parent of
/// every scope.
proof fn lemma_scope_chain_kept(
    before: Database,
    after: Database,
    id: GenericParameterScopeId,
    n: nat,
)
    requires
        before.scope_chain_within(id, n),
        forall|s: GenericParameterScopeId|
            #[trigger] before.has_generic_parameter_scope(s) ==> after.has_generic_parameter_scope(s)
                && after.generic_parameter_scope_data(s).parent_scope
                == before.generic_parameter_scope_data(s).parent_scope,
    ensures
        after.scope_chain_within(id, n),
    decreases n,
{
    if let Some(parent) = before.generic_parameter_scope_data(id).parent_scope {
        lemma_scope_chain_kept(before, after, parent, (n - 1) as nat);
    }
}

/// A generic parameter that was just added to a scope is what its name
/// stands for in that scope, whatever its parent scopes hold.
pub proof fn lemma_generic_parameter_read_after_write(
    before: Database,
    after: Database,
    scope: GenericParameterScopeId,
    name: IdentifierId,
    parameter: GenericParameterId,
)
    requires
        before.scope_chain_ends(scope),
        after.generic_parameter_scope_data(scope).parameters@ == before.generic_parameter_scope_data(
            scope,
        ).parameters@.insert(name, parameter),
        after@ == before.with_generic_parameter_scope(
            scope,
            (GenericParameterScopeData {
                parameters: after.generic_parameter_scope_data(scope).parameters,
                ..before.generic_parameter_scope_data(scope)
            }),
        ),
    ensures
        after.scope_chain_ends(scope),
        after.scope_lookup(scope, name) == Some(parameter),
{
    let n = choose|n: nat| before.scope_chain_within(scope, n);
    assert forall|s: GenericParameterScopeId|
        #[trigger] before.has_generic_parameter_scope(s) implies after.has_generic_parameter_scope(s)
            && after.generic_parameter_scope_data(s).parent_scope
            == before.generic_parameter_scope_data(s).parent_scope by {
        if s.package_of() == scope.package_of() && s.index_of() == scope.index_of() {
            assert(s == scope);
        }
    }
    lemma_scope_chain_kept(before, after, scope, n);
    after.lemma_scope_lookup_any(scope, name, n);
}

} // verus!
