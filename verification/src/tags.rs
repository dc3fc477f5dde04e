//! Tags attached to a bundle transaction: an ordered sequence of
//! (name, value) string pairs. Order is significant because the tag
//! section participates in the signed payload.

use vstd::prelude::*;

verus! {

/// One metadata tag of a bundle transaction.
#[derive(Clone)]
pub struct Tag {
    pub name: String,
    pub value: String,
}

/// The mathematical content of a [`Tag`]: its two strings as
/// sequences of characters.
pub ghost struct TagModel {
    pub name: Seq<char>,
    pub value: Seq<char>,
}

impl View for Tag {
    type V = TagModel;

    open spec fn view(&self) -> TagModel {
        TagModel { name: self.name@, value: self.value@ }
    }
}

impl DeepView for Tag {
    type V = TagModel;

    open spec fn deep_view(&self) -> TagModel {
        self@
    }
}

impl Tag {
    pub fn new(name: String, value: String) -> (t: Tag)
        ensures
            t@.name == name@,
            t@.value == value@,
    {
        Tag { name, value }
    }
}

} // verus!
