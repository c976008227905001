//! The route groups: which paths sit behind the authentication stage.
use vstd::prelude::*;
use vstd::string::*;
use crate::text::has_prefix;

verus! {

/// The path of the protected users scope.
pub open spec fn users_scope() -> Seq<char> {
    seq!['/', 'v', '1', '/', 'u', 's', 'e', 'r', 's']
}

/// A path in the protected group: the users scope itself or any path below it.
/// Every other path (health check, login, registration) is unprotected.
pub open spec fn is_protected_path(p: Seq<char>) -> bool {
    users_scope().is_prefix_of(p) && (p.len() == users_scope().len() || p[users_scope().len() as int] == '/')
}

/// Whether requests to `path` must pass the authentication stage.
pub fn is_protected(path: &str) -> (r: bool)
    ensures
        r == is_protected_path(path@),
{
    let scope = "/v1/users";
    proof {
        reveal_strlit("/v1/users");
        assert(scope@ =~= users_scope());
    }
    if !has_prefix(path, scope) {
        return false;
    }
    let n = path.unicode_len();
    n == 9 || path.get_char(9) == '/'
}

} // verus!
