//! Application scopes in which AI policy, budgets, and audit apply.

use vstd::prelude::*;

use crate::error::AiError;
use crate::text::{blank, byte_len, is_blank, utf8_len};

verus! {

/// One application scope with an optional tenant boundary.
#[derive(Clone, Debug)]
pub struct AiScope {
    /// Host-defined scope kind, such as `workspace`.
    pub kind: String,
    /// Host-defined scope identifier.
    pub id: String,
    /// Optional tenant boundary.
    pub tenant_id: Option<String>,
}

/// The texts of an optional string.
pub open spec fn opt_text(s: Option<String>) -> Option<Seq<char>> {
    match s {
        Some(t) => Some(t@),
        None => None,
    }
}

/// Field-wise equality of two scopes.
pub open spec fn same_scope(a: AiScope, b: AiScope) -> bool {
    a.kind@ == b.kind@ && a.id@ == b.id@ && opt_text(a.tenant_id) == opt_text(b.tenant_id)
}

/// A scope whose kind, identifier, and tenant are present and bounded.
pub open spec fn scope_valid(scope: AiScope) -> bool {
    &&& !is_blank(scope.kind@)
    &&& !is_blank(scope.id@)
    &&& byte_len(scope.kind@) <= 128
    &&& byte_len(scope.id@) <= 512
    &&& match scope.tenant_id {
        Some(tenant) => !is_blank(tenant@) && byte_len(tenant@) <= 512,
        None => true,
    }
}

impl AiScope {
    /// A scope without a tenant boundary.
    pub fn new(kind: &str, id: &str) -> (r: Self)
        ensures
            r.kind@ == kind@,
            r.id@ == id@,
            r.tenant_id is None,
    {
        AiScope { kind: kind.to_owned(), id: id.to_owned(), tenant_id: None }
    }

    /// A field-by-field copy.
    pub fn duplicate(&self) -> (r: Self)
        ensures
            same_scope(r, *self),
    {
        AiScope {
            kind: self.kind.clone(),
            id: self.id.clone(),
            tenant_id: match &self.tenant_id {
                Some(t) => Some(t.clone()),
                None => None,
            },
        }
    }

    /// Field-wise equality.
    pub fn same_as(&self, other: &AiScope) -> (r: bool)
        ensures
            r == same_scope(*self, *other),
    {
        self.kind == other.kind && self.id == other.id && match (&self.tenant_id, &other.tenant_id) {
            (Some(a), Some(b)) => *a == *b,
            (None, None) => true,
            _ => false,
        }
    }
}

/// Rejects a scope with a blank or oversized kind, identifier, or tenant.
pub fn validate_scope(scope: &AiScope) -> (r: Result<(), AiError>)
    ensures
        r is Ok <==> scope_valid(*scope),
        r matches Err(e) ==> e is InvalidInput,
{
    let tenant_bad = match &scope.tenant_id {
        Some(tenant) => blank(tenant.as_str()) || utf8_len(tenant.as_str()) > 512,
        None => false,
    };
    if blank(scope.kind.as_str()) || blank(scope.id.as_str()) || utf8_len(scope.kind.as_str()) > 128
        || utf8_len(scope.id.as_str()) > 512 || tenant_bad {
        return Err(AiError::InvalidInput("invalid AI scope".to_string()));
    }
    Ok(())
}

} // verus!
