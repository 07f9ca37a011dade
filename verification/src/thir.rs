//! Typed data about generic parameters, as type checking sees them.

use vstd::prelude::*;

use std::sync::Arc;

use crate::database::identifier_map::IdentifierMap;
use crate::database::Type;
use crate::interner::IdentifierId;
use crate::location::Location;

verus! {

/// Data, that the Stellar compiler has about a generic parameter.
#[derive(Debug, PartialEq, Eq)]
pub struct GenericParameterData {
    /// Location of the name of the generic parameter.
    pub location: Location,
    /// Default value of the generic parameter.
    pub default_value: Option<Type>,
}

impl GenericParameterData {
    /// Creates the data of a generic parameter.
    pub fn new(location: Location, default_value: Option<Type>) -> (r: Self)
        ensures
            r.location == location,
            r.default_value == default_value,
    {
        GenericParameterData { location, default_value }
    }
}

/// A generic parameter scope.
#[derive(Debug)]
pub struct GenericParameterScope {
    /// A parent scope, for example:
    ///
    /// ```stellar
    /// interface Foo[T] { // self.parent = Scope { parent: None, parameters: [T] }
    ///     fun bar[M]();  // self = Scope { parent: ..., parameters: [M] }
    /// }
    /// ```
    pub parent_scope: Option<Arc<GenericParameterScope>>,
    /// The generic parameters of the scope, by name.
    pub parameters: IdentifierMap<GenericParameterData>,
}

impl GenericParameterScope {
    /// The data of the generic parameter that a name stands for in the
    /// scope: that of the innermost scope on the chain of parents that has a
    /// parameter with the name.
    pub open spec fn lookup(&self, name: IdentifierId) -> Option<GenericParameterData>
        decreases self,
    {
        if self.parameters@.contains_key(name) {
            Some(self.parameters@[name])
        } else {
            match self.parent_scope {
                Some(parent) => parent.lookup(name),
                None => None,
            }
        }
    }

    /// Creates a new empty generic parameter scope.
    pub fn new(parent: Option<Arc<GenericParameterScope>>) -> (r: Self)
        ensures
            r.parent_scope == parent,
            r.parameters@ == Map::<IdentifierId, GenericParameterData>::empty(),
    {
        GenericParameterScope { parent_scope: parent, parameters: IdentifierMap::new() }
    }

    /// Adds a generic paramater into the scope.
    pub fn add_generic_parameter(&mut self, parameter_name: IdentifierId, data: GenericParameterData)
        ensures
            final(self).parent_scope == old(self).parent_scope,
            final(self).parameters@ == old(self).parameters@.insert(parameter_name, data),
    {
        self.parameters.insert(parameter_name, data);
    }

    /// Resolves a data about generic parameter in the scope: that of the
    /// innermost scope on the chain of parents that has one with the name.
    ///
    /// **Note**: the method shouldn't be used to check if the parameter exists
    /// in the scope. Use the [`contains()`] method.
    ///
    /// [`contains()`]: GenericParameterScope::contains
    pub fn resolve(&self, parameter_name: IdentifierId) -> (r: Option<&GenericParameterData>)
        ensures
            r == (match self.lookup(parameter_name) {
                Some(data) => Some(&data),
                None => None,
            }),
        decreases self,
    {
        if let Some(data) = self.parameters.get_ref(parameter_name) {
            Some(data)
        } else if let Some(parent_scope) = &self.parent_scope {
            parent_scope.resolve(parameter_name)
        } else {
            None
        }
    }

    /// Checks if the generic parameter exists in the scope or in one of its
    /// parents.
    pub fn contains(&self, parameter_name: IdentifierId) -> (r: bool)
        ensures
            r == self.lookup(parameter_name) is Some,
        decreases self,
    {
        self.parameters.contains_key(parameter_name) || if let Some(parent_scope) =
            &self.parent_scope {
            parent_scope.contains(parameter_name)
        } else {
            false
        }
    }
}

} // verus!
