//! HTTP methods, and how a route attribute names one.

use crate::text::{ascii_uppercase, is_ascii_lowercase, same_text, to_uppercase, uppercase_of};
use vstd::prelude::*;
use vstd::string::{StrSliceExecFns, StringExecFns};

verus! {

/// The request methods that a route can be declared for.
#[derive(Clone, Copy, Debug, PartialEq, Eq, Structural, Hash)]
pub enum Method {
    Options,
    Get,
    Post,
    Put,
    Delete,
    Head,
    Trace,
    Connect,
    Patch,
}

/// A text with its first character in upper case, and the rest as it is. A
/// first letter `a` to `z` becomes the letter `A` to `Z`. Any other first
/// character becomes the upper-case form that the standard library gives it,
/// which may be longer than one character.
pub open spec fn capitalized(s: Seq<char>) -> Seq<char> {
    if s.len() == 0 {
        Seq::empty()
    } else if is_ascii_lowercase(s[0]) {
        seq![ascii_uppercase(s[0])] + s.skip(1)
    } else {
        uppercase_of(s.take(1)) + s.skip(1)
    }
}

/// The method that carries `name` as the name of its variant.
pub open spec fn method_of_name(name: Seq<char>) -> Option<Method> {
    if name == "Options"@ {
        Some(Method::Options)
    } else if name == "Get"@ {
        Some(Method::Get)
    } else if name == "Post"@ {
        Some(Method::Post)
    } else if name == "Put"@ {
        Some(Method::Put)
    } else if name == "Delete"@ {
        Some(Method::Delete)
    } else if name == "Head"@ {
        Some(Method::Head)
    } else if name == "Trace"@ {
        Some(Method::Trace)
    } else if name == "Connect"@ {
        Some(Method::Connect)
    } else if name == "Patch"@ {
        Some(Method::Patch)
    } else {
        None
    }
}

/// How many methods there are.
pub const METHOD_COUNT: usize = 9;

impl Method {
    /// The place of the method in the order of declaration.
    pub open spec fn position(self) -> nat {
        match self {
            Method::Options => 0,
            Method::Get => 1,
            Method::Post => 2,
            Method::Put => 3,
            Method::Delete => 4,
            Method::Head => 5,
            Method::Trace => 6,
            Method::Connect => 7,
            Method::Patch => 8,
        }
    }

    /// The method at a place, in the order of declaration.
    pub open spec fn at_position(index: nat) -> Option<Method> {
        if index == 0 {
            Some(Method::Options)
        } else if index == 1 {
            Some(Method::Get)
        } else if index == 2 {
            Some(Method::Post)
        } else if index == 3 {
            Some(Method::Put)
        } else if index == 4 {
            Some(Method::Delete)
        } else if index == 5 {
            Some(Method::Head)
        } else if index == 6 {
            Some(Method::Trace)
        } else if index == 7 {
            Some(Method::Connect)
        } else if index == 8 {
            Some(Method::Patch)
        } else {
            None
        }
    }

    /// The place of the method in the order of declaration, below `METHOD_COUNT`.
    pub fn index(self) -> (i: usize)
        ensures
            i == self.position(),
            i < METHOD_COUNT,
            Method::at_position(i as nat) == Some(self),
    {
        match self {
            Method::Options => 0,
            Method::Get => 1,
            Method::Post => 2,
            Method::Put => 3,
            Method::Delete => 4,
            Method::Head => 5,
            Method::Trace => 6,
            Method::Connect => 7,
            Method::Patch => 8,
        }
    }

    /// The method at a place in the order of declaration, if the place is below
    /// `METHOD_COUNT`.
    pub fn at(index: usize) -> (m: Option<Method>)
        ensures
            m == Method::at_position(index as nat),
            m is Some == (index < METHOD_COUNT),
            m matches Some(method) ==> method.position() == index,
    {
        if index == 0 {
            Some(Method::Options)
        } else if index == 1 {
            Some(Method::Get)
        } else if index == 2 {
            Some(Method::Post)
        } else if index == 3 {
            Some(Method::Put)
        } else if index == 4 {
            Some(Method::Delete)
        } else if index == 5 {
            Some(Method::Head)
        } else if index == 6 {
            Some(Method::Trace)
        } else if index == 7 {
            Some(Method::Connect)
        } else if index == 8 {
            Some(Method::Patch)
        } else {
            None
        }
    }
}

/// Puts the first character of `string` in upper case and leaves the rest as
/// it is. An empty text stays empty.
pub fn capitalize_first(string: &str) -> (name: String)
    ensures
        name@ == capitalized(string@),
{
    let n = string.unicode_len();
    if n == 0 {
        String::new()
    } else {
        let mut name = to_uppercase(string.substring_char(0, 1));
        proof {
            let first = string@.subrange(0, 1);
            assert(first =~= string@.take(1));
            assert(first[0] == string@[0]);
            if is_ascii_lowercase(string@[0]) {
                assert(first.map_values(|c: char| ascii_uppercase(c)) =~= seq![
                    ascii_uppercase(string@[0]),
                ]);
            }
        }
        name.append(string.substring_char(1, n));
        name
    }
}

/// The method whose variant is called `name`, as in `Get` or `Delete`; `None`
/// for every other text.
pub fn method_named(name: &str) -> (method: Option<Method>)
    ensures
        method == method_of_name(name@),
{
    if same_text(name, "Options") {
        Some(Method::Options)
    } else if same_text(name, "Get") {
        Some(Method::Get)
    } else if same_text(name, "Post") {
        Some(Method::Post)
    } else if same_text(name, "Put") {
        Some(Method::Put)
    } else if same_text(name, "Delete") {
        Some(Method::Delete)
    } else if same_text(name, "Head") {
        Some(Method::Head)
    } else if same_text(name, "Trace") {
        Some(Method::Trace)
    } else if same_text(name, "Connect") {
        Some(Method::Connect)
    } else if same_text(name, "Patch") {
        Some(Method::Patch)
    } else {
        None
    }
}

} // verus!
