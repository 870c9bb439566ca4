//! The verbs that the relay is willing to send.

use vstd::prelude::*;
use crate::text::same_text;

verus! {

/// A supported HTTP verb.
#[derive(Clone, Copy, Debug, PartialEq, Eq, Structural)]
pub enum Method {
    Get,
    Post,
    Put,
    Delete,
}

/// The verb that a method string stands for, if any. The match is exact:
/// upper case only, nothing before or after the word.
pub open spec fn method_of(word: Seq<char>) -> Option<Method> {
    if word == "GET"@ {
        Some(Method::Get)
    } else if word == "POST"@ {
        Some(Method::Post)
    } else if word == "PUT"@ {
        Some(Method::Put)
    } else if word == "DELETE"@ {
        Some(Method::Delete)
    } else {
        None
    }
}

/// The word by which a verb goes on the wire.
pub open spec fn method_name(method: Method) -> Seq<char> {
    match method {
        Method::Get => "GET"@,
        Method::Post => "POST"@,
        Method::Put => "PUT"@,
        Method::Delete => "DELETE"@,
    }
}

impl Method {
    /// Reads a method string. `None` for every string but the four
    /// supported words.
    pub fn parse(word: &str) -> (method: Option<Method>)
        ensures
            method == method_of(word@),
    {
        if same_text(word, "GET") {
            Some(Method::Get)
        } else if same_text(word, "POST") {
            Some(Method::Post)
        } else if same_text(word, "PUT") {
            Some(Method::Put)
        } else if same_text(word, "DELETE") {
            Some(Method::Delete)
        } else {
            None
        }
    }

    /// The verb's word, such that `parse` reads it back.
    pub fn as_str(&self) -> (word: &'static str)
        ensures
            word@ == method_name(*self),
            method_of(word@) == Some(*self),
    {
        proof {
            lemma_name_reads_back(*self);
        }
        match self {
            Method::Get => "GET",
            Method::Post => "POST",
            Method::Put => "PUT",
            Method::Delete => "DELETE",
        }
    }
}

/// The four words differ from one another, so each verb's word stands for
/// that verb and no other.
pub proof fn lemma_name_reads_back(method: Method)
    ensures
        method_of(method_name(method)) == Some(method),
{
    reveal_strlit("GET");
    reveal_strlit("POST");
    reveal_strlit("PUT");
    reveal_strlit("DELETE");
    // Three lengths tell the words apart, but for the two of three letters,
    // which differ in the first.
    assert("GET"@.len() == 3 && "PUT"@.len() == 3);
    assert("POST"@.len() == 4 && "DELETE"@.len() == 6);
    assert("GET"@[0] == 'G' && "PUT"@[0] == 'P');
}

} // verus!
