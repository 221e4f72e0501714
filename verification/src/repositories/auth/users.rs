//! The columns that a profile update sets.

use vstd::prelude::*;

use crate::dto::auth::user_management::UpdateUserReq;

verus! {

/// The column assignments of a profile update, as (column, value) texts: the first name
/// when it is given, then the last name when it is given.
pub open spec fn update_assignments(first: Option<String>, last: Option<String>) -> Seq<(Seq<char>, Seq<char>)> {
    let head = match first {
        Some(f) => seq![("first_name"@, f@)],
        None => Seq::<(Seq<char>, Seq<char>)>::empty(),
    };
    match last {
        Some(l) => head.push(("last_name"@, l@)),
        None => head,
    }
}

/// The assignments as texts.
pub open spec fn assignment_texts(v: Seq<(String, String)>) -> Seq<(Seq<char>, Seq<char>)> {
    v.map_values(|p: (String, String)| (p.0@, p.1@))
}

/// The columns that an update of the user's profile sets, with their new values, in the
/// order in which they are written into the statement.
pub fn user_update_assignments(req: &UpdateUserReq) -> (r: Vec<(String, String)>)
    ensures
        assignment_texts(r@) == update_assignments(req.first_name, req.last_name),
        r@.len() == given_count(req.first_name, req.last_name),
        req.first_name matches Some(f) ==> r@[0].0@ == "first_name"@ && r@[0].1@ == f@,
        req.last_name matches Some(l) ==> r@.last().0@ == "last_name"@ && r@.last().1@ == l@,
{
    let mut out: Vec<(String, String)> = Vec::new();
    if let Some(first) = &req.first_name {
        out.push((String::from_str("first_name"), first.clone()));
    }
    let ghost head = out@;
    if let Some(last) = &req.last_name {
        out.push((String::from_str("last_name"), last.clone()));
    }
    proof {
        reveal_strlit("first_name");
        reveal_strlit("last_name");
        assert(assignment_texts(head) =~= match req.first_name {
            Some(f) => seq![("first_name"@, f@)],
            None => Seq::<(Seq<char>, Seq<char>)>::empty(),
        });
        assert(assignment_texts(out@) =~= update_assignments(req.first_name, req.last_name));
        lemma_update_assigns_each_given_name(req.first_name, req.last_name);
    }
    out
}

/// How many of the two names are given.
pub open spec fn given_count(first: Option<String>, last: Option<String>) -> int {
    (if first is Some { 1int } else { 0int }) + (if last is Some { 1int } else { 0int })
}

/// A profile update holds one assignment per given name and no other: a given first name
/// is assigned to `first_name`, first, whether or not a last name is given, and a given
/// last name is assigned to `last_name`, last, whether or not a first name is given.
pub proof fn lemma_update_assigns_each_given_name(first: Option<String>, last: Option<String>)
    ensures
        update_assignments(first, last).len() == given_count(first, last),
        first matches Some(f) ==> update_assignments(first, last)[0] == ("first_name"@, f@),
        last matches Some(l) ==> update_assignments(first, last).last() == ("last_name"@, l@),
{
}

} // verus!
