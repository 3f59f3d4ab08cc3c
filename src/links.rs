//! The column updates that a link-update request asks for.

use vstd::prelude::*;
use crate::models::UpdateLinkRequest;

verus! {

pub open spec fn opt_update(
    acc: Seq<(Seq<char>, Seq<char>)>,
    column: Seq<char>,
    v: Option<String>,
) -> Seq<(Seq<char>, Seq<char>)> {
    match v {
        Some(s) => acc.push((column, s@)),
        None => acc,
    }
}

/// The `(column, value)` pairs for the fields the request sets, in the order
/// url, description, title, icon, column_type.
pub open spec fn updates_of(req: UpdateLinkRequest) -> Seq<(Seq<char>, Seq<char>)> {
    opt_update(
        opt_update(
            opt_update(
                opt_update(opt_update(Seq::empty(), "url"@, req.url), "description"@, req.description),
                "title"@,
                req.title,
            ),
            "icon"@,
            req.icon,
        ),
        "column_type"@,
        req.column_type,
    )
}

pub open spec fn pairs_view(v: Seq<(String, String)>) -> Seq<(Seq<char>, Seq<char>)> {
    v.map_values(|p: (String, String)| (p.0@, p.1@))
}

fn push_update(out: &mut Vec<(String, String)>, column: &str, v: &Option<String>)
    ensures
        pairs_view(final(out)@) == opt_update(pairs_view(old(out)@), column@, *v),
{
    match v {
        Some(s) => {
            out.push((String::from_str(column), s.clone()));
            assert(pairs_view(out@) =~= pairs_view(old(out)@).push((column@, s@)));
        },
        None => {},
    }
}

/// The updates to apply to the stored link `req.id`: one per field present.
pub fn link_updates(req: &UpdateLinkRequest) -> (r: Vec<(String, String)>)
    ensures
        pairs_view(r@) == updates_of(*req),
{
    let mut out: Vec<(String, String)> = Vec::new();
    assert(pairs_view(out@) =~= Seq::<(Seq<char>, Seq<char>)>::empty());
    push_update(&mut out, "url", &req.url);
    push_update(&mut out, "description", &req.description);
    push_update(&mut out, "title", &req.title);
    push_update(&mut out, "icon", &req.icon);
    push_update(&mut out, "column_type", &req.column_type);
    out
}

} // verus!
