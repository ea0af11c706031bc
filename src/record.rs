use vstd::prelude::*;

verus! {

/// A stored record: a caller-chosen id and a name.
pub struct Hello {
    pub id: u32,
    pub name: String,
}

impl View for Hello {
    type V = (u32, Seq<char>);

    open spec fn view(&self) -> (u32, Seq<char>) {
        (self.id, self.name@)
    }
}

impl Hello {
    pub fn new(id: u32, name: &str) -> (r: Hello)
        ensures
            r@ == (id, name@),
    {
        Hello { id, name: name.to_owned() }
    }

    /// A fresh record with the same id and name.
    pub fn copy(&self) -> (r: Hello)
        ensures
            r@ == self@,
    {
        Hello { id: self.id, name: self.name.clone() }
    }
}

/// The payload of a lookup whose id no record carries.
pub struct ErrNoId {
    pub id: u32,
    pub err: String,
}

/// The message that a failed lookup carries.
pub open spec fn not_found_message() -> Seq<char> {
    "id not found"@
}

impl ErrNoId {
    /// The not-found payload for `id`.
    pub fn new(id: u32) -> (r: ErrNoId)
        ensures
            r.id == id,
            r.err@ == not_found_message(),
    {
        ErrNoId { id, err: String::from_str("id not found") }
    }

    /// The HTTP status that a not-found payload is sent with.
    pub fn status_code(&self) -> (r: u16)
        ensures
            r == 404,
    {
        404
    }
}

} // verus!
