//! URL-like flake references.

use vstd::prelude::*;
use vstd::string::*;
use crate::text::opt_str_view;

verus! {

/// The characters of `<type>:<owner>/<repo>`, followed by `/<rev-or-ref>`
/// and `?<params>` where they are given.
pub open spec fn git_hosting_svc_text(
    type_: Seq<char>,
    owner: Seq<char>,
    repo: Seq<char>,
    rev_or_ref: Option<Seq<char>>,
    params: Option<Seq<char>>,
) -> Seq<char> {
    type_ + seq![':'] + owner + seq!['/'] + repo + (match rev_or_ref {
        Some(r) => seq!['/'] + r,
        None => Seq::empty(),
    }) + (match params {
        Some(p) => seq!['?'] + p,
        None => Seq::empty(),
    })
}

/// Formats the flake reference of a repository on a Git hosting service.
pub fn git_hosting_svc_fmt(
    type_: &str,
    owner: &str,
    repo: &str,
    rev_or_ref: Option<&str>,
    params: Option<&str>,
) -> (s: String)
    ensures
        s@ == git_hosting_svc_text(
            type_@,
            owner@,
            repo@,
            opt_str_view(rev_or_ref),
            opt_str_view(params),
        ),
{
    proof {
        reveal_strlit(":");
        reveal_strlit("/");
        reveal_strlit("?");
    }
    let mut s = String::from_str(type_);
    s.append(":");
    s.append(owner);
    s.append("/");
    s.append(repo);
    assert(s@ =~= type_@ + seq![':'] + owner@ + seq!['/'] + repo@);
    if let Some(rev_or_ref) = rev_or_ref {
        s.append("/");
        s.append(rev_or_ref);
    }
    let ghost mid = s@;
    assert(mid =~= type_@ + seq![':'] + owner@ + seq!['/'] + repo@ + (match opt_str_view(
        rev_or_ref,
    ) {
        Some(r) => seq!['/'] + r,
        None => Seq::empty(),
    }));
    if let Some(params) = params {
        s.append("?");
        s.append(params);
    }
    assert(s@ =~= mid + (match opt_str_view(params) {
        Some(p) => seq!['?'] + p,
        None => Seq::empty(),
    }));
    s
}

} // verus!
