use vstd::prelude::*;

use crate::ids::ThreadId;

verus! {

/// A local conversation record: the one remote thread it is bound to.
/// Persisted to the private data directory between sessions.
pub struct Conv {
    pub thread_id: ThreadId,
}

impl View for Conv {
    type V = Seq<char>;

    open spec fn view(&self) -> Seq<char> {
        self.thread_id@
    }
}

impl Conv {
    /// Wraps a freshly created remote thread into a conversation record.
    pub fn from_thread(thread_id: ThreadId) -> (r: Conv)
        ensures
            r@ == thread_id@,
    {
        Conv { thread_id }
    }
}

/// How a conversation is obtained for this session.
pub enum ConvPlan {
    /// The persisted record is valid: reuse its thread.
    Reuse(Conv),
    /// Create a new remote thread, wrap it into a record and persist it
    /// (overwriting any previous record).
    CreateNew,
}

/// Decides whether the persisted conversation record can be reused.
///
/// A record is reused only when recreation was not requested, a record
/// was loaded, and the thread it references was verified to still exist
/// remotely. A failed verification falls back to creation instead of
/// surfacing an error.
pub fn load_or_create_conv(recreate: bool, persisted: Option<ThreadId>, thread_exists: bool) -> (r:
    ConvPlan)
    ensures
        (r is Reuse <==> !recreate && persisted is Some && thread_exists),
        (r matches ConvPlan::Reuse(c) ==> persisted matches Some(t) && c@ == t@),
{
    if recreate {
        return ConvPlan::CreateNew;
    }
    match persisted {
        Some(thread_id) => {
            if thread_exists {
                ConvPlan::Reuse(Conv { thread_id })
            } else {
                ConvPlan::CreateNew
            }
        },
        None => ConvPlan::CreateNew,
    }
}

} // verus!
