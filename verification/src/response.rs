//! The acknowledgment record returned by a successful write operation:
//! a list of key/value attributes.

use vstd::prelude::*;

verus! {

/// One key/value pair of an acknowledgment.
#[derive(Debug)]
pub struct Attribute {
    pub key: String,
    pub value: String,
}

impl View for Attribute {
    type V = (Seq<char>, Seq<char>);

    open spec fn view(&self) -> (Seq<char>, Seq<char>) {
        (self.key@, self.value@)
    }
}

/// The acknowledgment record: its attributes, in the order they were added.
#[derive(Debug)]
pub struct Response {
    pub attributes: Vec<Attribute>,
}

impl View for Response {
    type V = Seq<(Seq<char>, Seq<char>)>;

    open spec fn view(&self) -> Seq<(Seq<char>, Seq<char>)> {
        self.attributes@.map_values(|a: Attribute| a@)
    }
}

impl Response {
    /// An acknowledgment with no attributes yet.
    pub fn new() -> (r: Response)
        ensures
            r@ == Seq::<(Seq<char>, Seq<char>)>::empty(),
    {
        let r = Response { attributes: Vec::new() };
        proof {
            assert(r@ =~= Seq::<(Seq<char>, Seq<char>)>::empty());
        }
        r
    }

    /// Appends one key/value attribute.
    pub fn add_attribute(self, key: &str, value: &str) -> (r: Response)
        ensures
            r@ == self@.push((key@, value@)),
    {
        let mut attributes = self.attributes;
        attributes.push(Attribute { key: key.to_owned(), value: value.to_owned() });
        let r = Response { attributes };
        proof {
            assert(r@ =~= self@.push((key@, value@)));
        }
        r
    }
}

} // verus!
