use vstd::prelude::*;
use vstd::string::*;

verus! {

/// A human readable account or contract address.
///
/// Holding an `Addr` says nothing about whether the address is valid on a
/// chain: only an address validator of the chain can say that.
#[derive(Clone, Debug, PartialEq, Eq, PartialOrd, Ord, Hash)]
pub struct Addr(String);

impl View for Addr {
    type V = Seq<char>;

    closed spec fn view(&self) -> Seq<char> {
        self.0@
    }
}

impl Addr {
    /// The string that the address wraps.
    pub closed spec fn string_of(self) -> String {
        self.0
    }

    /// The wrapped string reads as the address.
    pub proof fn lemma_string_of_view(self)
        ensures
            self.string_of()@ == self@,
    {
    }

    /// Wraps `input` as an address without checking it.
    pub fn unchecked(input: &str) -> (res: Addr)
        ensures
            res@ == input@,
    {
        Addr(input.to_owned())
    }

    /// Wraps an owned string as an address without checking it.
    pub fn from_string(input: String) -> (res: Addr)
        ensures
            res@ == input@,
    {
        Addr(input)
    }

    /// The address as a string slice.
    pub fn as_str(&self) -> (res: &str)
        ensures
            res@ == self@,
    {
        self.0.as_str()
    }

    /// A copy of the address as an owned string.
    pub fn to_string(&self) -> (res: String)
        ensures
            res == self.string_of(),
            res@ == self@,
    {
        self.0.clone()
    }

    /// The address as an owned string.
    pub fn into_string(self) -> (res: String)
        ensures
            res == self.string_of(),
            res@ == self@,
    {
        self.0
    }
}

} // verus!
