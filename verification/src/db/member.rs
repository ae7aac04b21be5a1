//! A member as the directory knows them.

use vstd::prelude::*;

verus! {

/// A tracked member: the name that reports show, and the number by which
/// attendance rows refer to the member.
#[derive(Clone, Debug, PartialEq, Eq)]
pub struct Member {
    pub name: String,
    pub id: i32,
}

/// A [`Member`] with its name as text.
pub struct MemberView {
    pub name: Seq<char>,
    pub id: i32,
}

impl View for Member {
    type V = MemberView;

    open spec fn view(&self) -> MemberView {
        MemberView { name: self.name@, id: self.id }
    }
}

impl DeepView for Member {
    type V = MemberView;

    open spec fn deep_view(&self) -> MemberView {
        self@
    }
}

} // verus!
