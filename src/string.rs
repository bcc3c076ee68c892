//! The host-side value of a foreign string: its text, handed across the
//! boundary as UTF-8.

use vstd::prelude::*;

verus! {

/// A string as the foreign runtime holds it.
#[derive(Debug)]
pub struct JuceString {
    text: String,
}

impl View for JuceString {
    type V = Seq<char>;

    closed spec fn view(&self) -> Seq<char> {
        self.text@
    }
}

impl JuceString {
    /// A string with the given text.
    pub fn new(s: &str) -> (r: Self)
        ensures
            r@ == s@,
    {
        JuceString { text: s.to_owned() }
    }

    /// The text of the string.
    pub fn as_str(&self) -> (r: &str)
        ensures
            r@ == self@,
    {
        self.text.as_str()
    }

    /// Whether the string has no text.
    pub fn is_empty(&self) -> (r: bool)
        ensures
            r == (self@.len() == 0),
    {
        self.text.as_str().is_empty()
    }

    /// The text as a host string.
    pub fn into_string(self) -> (r: String)
        ensures
            r@ == self@,
    {
        self.text
    }
}

impl Clone for JuceString {
    fn clone(&self) -> (r: Self)
        ensures
            r@ == self@,
    {
        JuceString { text: self.text.clone() }
    }
}

impl Default for JuceString {
    fn default() -> (r: Self)
        ensures
            r@ == Seq::<char>::empty(),
    {
        JuceString { text: String::new() }
    }
}

impl PartialEq for JuceString {
    fn eq(&self, other: &JuceString) -> (r: bool)
        ensures
            r == (self@ == other@),
    {
        self.text == other.text
    }
}

impl vstd::std_specs::cmp::PartialEqSpecImpl for JuceString {
    open spec fn obeys_eq_spec() -> bool {
        true
    }

    open spec fn eq_spec(&self, other: &JuceString) -> bool {
        self@ == other@
    }
}

impl Eq for JuceString {

}

impl<'a> From<&'a str> for JuceString {
    fn from(s: &'a str) -> (r: JuceString)
        ensures
            r@ == s@,
    {
        JuceString::new(s)
    }
}

impl<'a> vstd::std_specs::convert::FromSpecImpl<&'a str> for JuceString {
    open spec fn obeys_from_spec() -> bool {
        false
    }

    open spec fn from_spec(s: &'a str) -> JuceString {
        arbitrary()
    }
}

} // verus!
