use vstd::prelude::*;

verus! {

/// Opaque identifier of a remote assistant resource.
///
/// Distinct nominal types for the three remote entity kinds prevent an
/// identifier of one kind from being passed where another is expected.
pub struct AsstId {
    pub id: String,
}

/// Opaque identifier of a remote conversation thread.
pub struct ThreadId {
    pub id: String,
}

/// Opaque identifier of a remote uploaded file.
pub struct FileId {
    pub id: String,
}

/// What a new assistant is created with: a display name and a model name.
pub struct CreateConfig {
    pub name: String,
    pub model: String,
}

impl View for AsstId {
    type V = Seq<char>;

    open spec fn view(&self) -> Seq<char> {
        self.id@
    }
}

impl View for ThreadId {
    type V = Seq<char>;

    open spec fn view(&self) -> Seq<char> {
        self.id@
    }
}

impl View for FileId {
    type V = Seq<char>;

    open spec fn view(&self) -> Seq<char> {
        self.id@
    }
}

impl AsstId {
    pub fn new(id: String) -> (r: AsstId)
        ensures
            r@ == id@,
    {
        AsstId { id }
    }
}

impl ThreadId {
    pub fn new(id: String) -> (r: ThreadId)
        ensures
            r@ == id@,
    {
        ThreadId { id }
    }
}

impl FileId {
    pub fn new(id: String) -> (r: FileId)
        ensures
            r@ == id@,
    {
        FileId { id }
    }
}

impl Clone for AsstId {
    fn clone(&self) -> (r: Self)
        ensures
            r@ == self@,
    {
        AsstId { id: self.id.clone() }
    }
}

impl Clone for ThreadId {
    fn clone(&self) -> (r: Self)
        ensures
            r@ == self@,
    {
        ThreadId { id: self.id.clone() }
    }
}

impl Clone for FileId {
    fn clone(&self) -> (r: Self)
        ensures
            r@ == self@,
    {
        FileId { id: self.id.clone() }
    }
}

} // verus!
