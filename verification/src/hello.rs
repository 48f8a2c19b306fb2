//! The minimal contract deployed by the factory in its round-trip tests: it
//! remembers a subject and greets it.

use vstd::prelude::*;
use vstd::string::StringExecFns;

verus! {

/// A contract that stores a subject to greet.
pub struct HelloContract {
    subject: String,
}

impl View for HelloContract {
    type V = Seq<char>;

    /// A `HelloContract` is abstractly the subject it greets.
    closed spec fn view(&self) -> Seq<char> {
        self.subject@
    }
}

impl Default for HelloContract {
    /// An uninitialized contract greets the empty subject.
    fn default() -> (r: Self)
        ensures
            r@ == Seq::<char>::empty(),
    {
        HelloContract { subject: String::new() }
    }
}

impl HelloContract {
    /// Initializes the contract with the subject to greet.
    pub fn new(subject: String) -> (r: Self)
        ensures
            r@ == subject@,
    {
        HelloContract { subject }
    }

    /// Greets the stored subject.
    pub fn hello(&self) -> (r: String)
        ensures
            r@ == "Hello, "@ + self@ + "!"@,
    {
        let mut s = "Hello, ".to_owned();
        s.append(self.subject.as_str());
        s.append("!");
        s
    }
}

} // verus!
