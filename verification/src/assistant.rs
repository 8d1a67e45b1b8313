use vstd::prelude::*;

use crate::ids::AsstId;
use crate::strutil::str_eq;

verus! {

/// One entry of the remote assistant listing: its identifier and its
/// optional display name.
pub struct AsstSummary {
    pub id: String,
    pub name: Option<String>,
}

/// The entry's name is present and equals `name`.
pub open spec fn summary_matches(a: AsstSummary, name: Seq<char>) -> bool {
    a.name matches Some(n) && n@ == name
}

/// No entry before position `i` of the listing matches `name`.
pub open spec fn no_match_before(assts: Seq<AsstSummary>, name: Seq<char>, i: int) -> bool {
    forall|j: int| 0 <= j < i ==> !summary_matches(assts[j], name)
}

/// Finds the first assistant of the listing whose name equals `name`
/// exactly; entries without a name never match.
pub fn first_by_name(assts: &Vec<AsstSummary>, name: &str) -> (r: Option<AsstId>)
    ensures
        (r is Some <==> exists|i: int|
            0 <= i < assts@.len() && summary_matches(assts@[i], name@)),
        (r matches Some(id) ==> exists|i: int|
            0 <= i < assts@.len() && summary_matches(assts@[i], name@) && id@ == assts@[i].id@
                && no_match_before(assts@, name@, i)),
{
    let mut i: usize = 0;
    while i < assts.len()
        invariant
            i <= assts@.len(),
            no_match_before(assts@, name@, i as int),
        decreases assts@.len() - i,
    {
        match &assts[i].name {
            Some(n) => {
                if str_eq(n.as_str(), name) {
                    assert(summary_matches(assts@[i as int], name@));
                    return Some(AsstId::new(assts[i].id.clone()));
                }
            },
            None => {},
        }
        i = i + 1;
    }
    None
}

/// How the session obtains its assistant.
pub enum AsstPlan {
    /// An assistant of that name exists and recreation was not
    /// requested: bind to it.
    UseExisting(AsstId),
    /// An assistant of that name exists but recreation was requested:
    /// delete it, then create a fresh one.
    DeleteThenCreate(AsstId),
    /// No assistant of that name exists: create one.
    CreateNew,
}

/// Decides how to obtain the session's assistant from the lookup result
/// and the recreation flag.
pub fn load_or_create_asst(found: Option<AsstId>, recreate: bool) -> (r: AsstPlan)
    ensures
        (found is None ==> r is CreateNew),
        (found is Some && recreate ==> r is DeleteThenCreate),
        (found is Some && !recreate ==> r is UseExisting),
        (found matches Some(id) ==> r matches AsstPlan::DeleteThenCreate(d) ==> d@ == id@),
        (found matches Some(id) ==> r matches AsstPlan::UseExisting(u) ==> u@ == id@),
{
    match found {
        None => AsstPlan::CreateNew,
        Some(id) => {
            if recreate {
                AsstPlan::DeleteThenCreate(id)
            } else {
                AsstPlan::UseExisting(id)
            }
        },
    }
}

} // verus!
