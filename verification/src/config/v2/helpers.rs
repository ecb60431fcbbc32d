//! Conversions into the scope context configuration is matched against.
use vstd::prelude::*;
use crate::config::v2::scope::ScopeContext;
use crate::types::FunctionIdentity;

verus! {

/// An exact copy of an optional string.
fn copy_opt(o: &Option<String>) -> (r: Option<String>)
    ensures
        r == *o,
{
    match o {
        Some(s) => Some(s.clone()),
        None => None,
    }
}

/// The scope context of a function identity: its package as the crate, its
/// module path, file and function name.
pub fn scope_context_from_identity(identity: &FunctionIdentity) -> (r: ScopeContext)
    ensures
        r == (ScopeContext {
            crate_name: identity.package,
            file_path: identity.file_path,
            mod_path: identity.mod_path,
            function_name: identity.function_name,
            ..ScopeContext::empty()
        }),
{
    ScopeContext {
        crate_name: copy_opt(&identity.package),
        file_path: copy_opt(&identity.file_path),
        mod_path: copy_opt(&identity.mod_path),
        ty_name: None,
        function_name: copy_opt(&identity.function_name),
        method_name: None,
        scope_kind: None,
    }
}

} // verus!
