//! Documentation references of a unit: manual pages and web addresses.
use vstd::prelude::*;

use crate::text::{
    before_first, before_first_of, chars_of, lemma_split_once_after, lemma_split_once_none,
    same_as, split_once, split_once_at, string_of, trim, trim_of,
};
use crate::types::CtlError;

verus! {

/// A documentation reference of a unit.
#[derive(Clone, Debug, PartialEq)]
pub enum Doc {
    /// A manual page, by name.
    Man(String),
    /// A web page, by its full address.
    Url(String),
}

/// What a `Doc` holds, as character sequences.
pub enum DocModel {
    Man(Seq<char>),
    Url(Seq<char>),
}

impl View for Doc {
    type V = DocModel;

    open spec fn view(&self) -> DocModel {
        match self {
            Doc::Man(s) => DocModel::Man(s@),
            Doc::Url(s) => DocModel::Url(s@),
        }
    }
}

/// The views of a sequence of documentation references.
pub open spec fn doc_views(v: Seq<Doc>) -> Seq<DocModel> {
    v.map_values(|d: Doc| d@)
}

/// The reference that a descriptor such as `man:sshd(8)` or `https://host/page` denotes.
/// The descriptor is split at its first colon, and one without a colon is
/// malformed; the part before the colon selects the kind. A manual page keeps
/// its name up to the first parenthesis; a web address is rebuilt from its
/// scheme and the trimmed rest.
pub open spec fn doc_from(s: Seq<char>) -> Result<DocModel, CtlError> {
    match split_once(s, ':') {
        None => Err(CtlError::MalformedDescriptor),
        Some(p) => if p.0 == "man"@ {
            Ok(DocModel::Man(before_first(p.1, '(')))
        } else if p.0 == "http"@ {
            Ok(DocModel::Url("http:"@ + trim(p.1)))
        } else if p.0 == "https"@ {
            Ok(DocModel::Url("https:"@ + trim(p.1)))
        } else {
            Err(CtlError::UnknownDocKind)
        },
    }
}

/// `p` followed by the characters of `v`, as a `String`.
fn prefixed(p: &str, v: &Vec<char>) -> (r: String)
    ensures
        r@ == p@ + v@,
{
    let mut all = chars_of(p);
    let mut rest = v.clone();
    all.append(&mut rest);
    string_of(&all)
}

impl Doc {
    /// Parses a descriptor given as characters.
    pub fn from_chars(s: &Vec<char>) -> (r: Result<Doc, CtlError>)
        ensures
            match r {
                Ok(d) => doc_from(s@) == Ok::<DocModel, CtlError>(d@),
                Err(e) => doc_from(s@) == Err::<DocModel, CtlError>(e),
            },
    {
        let (kind, rest) = match split_once_at(s, ':') {
            Some(p) => p,
            None => return Err(CtlError::MalformedDescriptor),
        };
        let kind = &kind;
        let rest = &rest;
        if same_as(kind, "man") {
            Ok(Doc::Man(string_of(&before_first_of(rest, '('))))
        } else if same_as(kind, "http") {
            Ok(Doc::Url(prefixed("http:", &trim_of(rest))))
        } else if same_as(kind, "https") {
            Ok(Doc::Url(prefixed("https:", &trim_of(rest))))
        } else {
            Err(CtlError::UnknownDocKind)
        }
    }

    /// Parses a descriptor such as `man:sshd(8)` or `https://example.com/x`.
    pub fn from_descriptor(s: &str) -> (r: Result<Doc, CtlError>)
        ensures
            match r {
                Ok(d) => doc_from(s@) == Ok::<DocModel, CtlError>(d@),
                Err(e) => doc_from(s@) == Err::<DocModel, CtlError>(e),
            },
    {
        Doc::from_chars(&chars_of(s))
    }

    /// The page name, if this is a manual page.
    pub fn as_man(&self) -> (r: Option<&str>)
        ensures
            match self {
                Doc::Man(s) => r is Some && r->0@ == s@,
                Doc::Url(_) => r is None,
            },
    {
        match self {
            Doc::Man(s) => Some(s.as_str()),
            Doc::Url(_) => None,
        }
    }

    /// The address, if this is a web page.
    pub fn as_url(&self) -> (r: Option<&str>)
        ensures
            match self {
                Doc::Url(s) => r is Some && r->0@ == s@,
                Doc::Man(_) => r is None,
            },
    {
        match self {
            Doc::Url(s) => Some(s.as_str()),
            Doc::Man(_) => None,
        }
    }
}


/// A descriptor without a colon is malformed.
pub proof fn lemma_descriptor_needs_colon(s: Seq<char>)
    requires
        !s.contains(':'),
    ensures
        doc_from(s) == Err::<DocModel, CtlError>(CtlError::MalformedDescriptor),
{
    lemma_split_once_none(s, ':');
}

/// A descriptor whose part before its first colon is `man`, `http` or
/// `https` always gives a reference, whatever further colons it holds.
pub proof fn lemma_known_kind_succeeds(kind: Seq<char>, rest: Seq<char>)
    requires
        !kind.contains(':'),
        kind == "man"@ || kind == "http"@ || kind == "https"@,
    ensures
        doc_from(kind + seq![':'] + rest) is Ok,
{
    lemma_split_once_after(kind, rest, ':');
}

} // verus!
