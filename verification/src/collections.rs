use vstd::prelude::*;
use crate::auth_methods::AuthTypes;
use crate::header_list::{header_list_clone, header_pairs};
use crate::request_methods::Method;

verus! {

/// A named set of variables.
#[derive(Debug, Hash, PartialEq, Eq)]
pub struct Collection {
    pub name: String,
    pub variables: im::Vector<(String, String)>,
}

/// A saved request: everything needed to send it again.
#[derive(Debug, Hash, PartialEq, Eq)]
pub struct Request {
    pub name: String,
    pub headers: im::Vector<(String, String)>,
    pub url: String,
    pub method: Method,
    pub body: String,
    pub auth: (AuthTypes, String),
}

/// The value of a collection: its name and its (variable, value) pairs.
pub struct CollectionView {
    pub name: Seq<char>,
    pub variables: Seq<(Seq<char>, Seq<char>)>,
}

/// The value of a request, with every text as its characters.
pub struct RequestView {
    pub name: Seq<char>,
    pub headers: Seq<(Seq<char>, Seq<char>)>,
    pub url: Seq<char>,
    pub method: Method,
    pub body: Seq<char>,
    pub auth: (AuthTypes, Seq<char>),
}

impl View for Collection {
    type V = CollectionView;

    open spec fn view(&self) -> CollectionView {
        CollectionView { name: self.name@, variables: header_pairs(self.variables) }
    }
}

impl View for Request {
    type V = RequestView;

    open spec fn view(&self) -> RequestView {
        RequestView {
            name: self.name@,
            headers: header_pairs(self.headers),
            url: self.url@,
            method: self.method,
            body: self.body@,
            auth: (self.auth.0, self.auth.1@),
        }
    }
}

impl Clone for Collection {
    /// A copy with the same name and the same variables.
    fn clone(&self) -> (c: Self)
        ensures
            c@ == self@,
    {
        Collection { name: self.name.clone(), variables: header_list_clone(&self.variables) }
    }
}

impl Clone for Request {
    /// A copy equal in every field.
    fn clone(&self) -> (c: Self)
        ensures
            c@ == self@,
    {
        Request {
            name: self.name.clone(),
            headers: header_list_clone(&self.headers),
            url: self.url.clone(),
            method: self.method,
            body: self.body.clone(),
            auth: (self.auth.0, self.auth.1.clone()),
        }
    }
}

/// The values of a list of requests, in order.
pub open spec fn request_views(rs: Seq<Request>) -> Seq<RequestView> {
    rs.map_values(|r: Request| r@)
}

} // verus!
