//! The project record and its mathematical view.

use vstd::prelude::*;

verus! {

/// One row of the `projects` table.
#[derive(Clone, Debug, PartialEq, Eq)]
pub struct Project {
    /// Primary key, chosen by the caller.
    pub id: String,
    /// Display label.
    pub name: String,
    /// Filesystem location.
    pub path: String,
    /// Caller-supplied timestamp; rows are listed by it, newest first.
    pub last_opened: String,
}

/// A project as four character sequences.
pub ghost struct ProjectView {
    pub id: Seq<char>,
    pub name: Seq<char>,
    pub path: Seq<char>,
    pub last_opened: Seq<char>,
}

impl View for Project {
    type V = ProjectView;

    open spec fn view(&self) -> ProjectView {
        ProjectView {
            id: self.id@,
            name: self.name@,
            path: self.path@,
            last_opened: self.last_opened@,
        }
    }
}

impl Project {
    /// The values bound to the four placeholders of the write statement, in
    /// column order.
    pub open spec fn spec_params(self) -> Seq<Seq<char>> {
        seq![self.id@, self.name@, self.path@, self.last_opened@]
    }

    /// Borrows the four fields in column order: id, name, path, last_opened.
    pub fn params(&self) -> (r: Vec<&str>)
        ensures
            r@.len() == 4,
            forall|i: int| 0 <= i < 4 ==> (#[trigger] r@[i])@ == self.spec_params()[i],
    {
        let mut r: Vec<&str> = Vec::new();
        r.push(self.id.as_str());
        r.push(self.name.as_str());
        r.push(self.path.as_str());
        r.push(self.last_opened.as_str());
        r
    }
}

} // verus!
