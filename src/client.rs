use crate::config::Config;
use crate::entry_id::EntryId;
use crate::entry_params::{entry_xml, EntryParams};
use vstd::prelude::*;
use vstd::string::StringExecFns;

verus! {

#[verifier::external_type_specification]
#[verifier::external_body]
pub struct ExRequestError(reqwest::Error);

/// A client of one blog's AtomPub endpoints.
#[derive(Debug, PartialEq, Eq)]
pub struct Client {
    config: Config,
}

/// Why a request did not succeed.
#[derive(Debug)]
pub enum ClientError {
    /// The request failed before a response came.
    RequestError(reqwest::Error),
    BadRequest,
    Unauthorized,
    NotFound,
    MethodNotAllowed,
    InternalServerError,
    /// Any other status outside 200 to 299.
    UnknownStatusCode,
}

/// The HTTP methods the client uses.
#[derive(Clone, Copy, Debug, PartialEq, Eq)]
pub enum Method {
    Get,
    Post,
    Put,
    Delete,
}

/// One HTTP request to make, authenticated with the client's credentials.
#[derive(Debug, PartialEq, Eq)]
pub struct Request {
    pub method: Method,
    pub url: String,
    pub body: Option<String>,
}

impl ClientError {
    /// A short description of the error.
    pub fn to_string(&self) -> (r: String)
        ensures
            r@ == error_message(*self),
    {
        match self {
            ClientError::RequestError(_) => String::from_str("request error"),
            ClientError::BadRequest => String::from_str("bad request"),
            ClientError::Unauthorized => String::from_str("unauthorized"),
            ClientError::NotFound => String::from_str("not found"),
            ClientError::MethodNotAllowed => String::from_str("method not allowed"),
            ClientError::InternalServerError => String::from_str("internal server error"),
            ClientError::UnknownStatusCode => String::from_str("unknown status code"),
        }
    }
}

/// The description of each error.
pub open spec fn error_message(e: ClientError) -> Seq<char> {
    match e {
        ClientError::RequestError(_) => "request error"@,
        ClientError::BadRequest => "bad request"@,
        ClientError::Unauthorized => "unauthorized"@,
        ClientError::NotFound => "not found"@,
        ClientError::MethodNotAllowed => "method not allowed"@,
        ClientError::InternalServerError => "internal server error"@,
        ClientError::UnknownStatusCode => "unknown status code"@,
    }
}

/// A status from 200 to 299.
pub open spec fn is_success(status: u16) -> bool {
    200 <= status <= 299
}

/// The outcome that a response status stands for.
pub open spec fn status_outcome(status: u16, r: Result<(), ClientError>) -> bool {
    if is_success(status) {
        r is Ok
    } else if status == 400 {
        r matches Err(ClientError::BadRequest)
    } else if status == 401 {
        r matches Err(ClientError::Unauthorized)
    } else if status == 404 {
        r matches Err(ClientError::NotFound)
    } else if status == 405 {
        r matches Err(ClientError::MethodNotAllowed)
    } else if status == 500 {
        r matches Err(ClientError::InternalServerError)
    } else {
        r matches Err(ClientError::UnknownStatusCode)
    }
}

/// Maps the status of a response to success or to the error it stands for.
pub fn check_status(status: u16) -> (r: Result<(), ClientError>)
    ensures
        status_outcome(status, r),
{
    if 200 <= status && status <= 299 {
        Ok(())
    } else if status == 400 {
        Err(ClientError::BadRequest)
    } else if status == 401 {
        Err(ClientError::Unauthorized)
    } else if status == 404 {
        Err(ClientError::NotFound)
    } else if status == 405 {
        Err(ClientError::MethodNotAllowed)
    } else if status == 500 {
        Err(ClientError::InternalServerError)
    } else {
        Err(ClientError::UnknownStatusCode)
    }
}

/// The address of a blog's endpoints: base URL, account and blog.
pub open spec fn blog_root(c: Config) -> Seq<char> {
    c.base_url@ + "/"@ + c.hatena_id@ + "/"@ + c.blog_id@
}

/// The address of the entry collection, with the page cursor as a query
/// where one is given.
pub open spec fn collection_uri_text(c: Config, page: Option<Seq<char>>) -> Seq<char> {
    blog_root(c) + "/atom/entry"@ + match page {
        Some(p) => "?page="@ + p,
        None => Seq::empty(),
    }
}

/// The address of one entry.
pub open spec fn member_uri_text(c: Config, id: Seq<char>) -> Seq<char> {
    blog_root(c) + "/atom/entry/"@ + id
}

/// The address of the category document.
pub open spec fn category_document_uri_text(c: Config) -> Seq<char> {
    blog_root(c) + "/atom/category"@
}

pub open spec fn opt_str(o: Option<&str>) -> Option<Seq<char>> {
    match o {
        Some(s) => Some(s@),
        None => None,
    }
}

impl View for Client {
    type V = Config;

    closed spec fn view(&self) -> Config {
        self.config
    }
}

impl Client {
    pub fn new(config: &Config) -> (r: Client)
        ensures
            r@ == *config,
    {
        Client {
            config: Config {
                api_key: config.api_key.clone(),
                base_url: config.base_url.clone(),
                blog_id: config.blog_id.clone(),
                hatena_id: config.hatena_id.clone(),
            },
        }
    }

    /// The configuration the client was made with.
    pub fn config(&self) -> (r: &Config)
        ensures
            *r == self@,
    {
        &self.config
    }

    fn blog_root(&self) -> (r: String)
        ensures
            r@ == blog_root(self@),
    {
        let mut s = self.config.base_url.clone();
        s.append("/");
        s.append(self.config.hatena_id.as_str());
        s.append("/");
        s.append(self.config.blog_id.as_str());
        s
    }

    pub fn category_document_uri(&self) -> (r: String)
        ensures
            r@ == category_document_uri_text(self@),
    {
        let mut s = self.blog_root();
        s.append("/atom/category");
        s
    }

    pub fn collection_uri(&self, page: Option<&str>) -> (r: String)
        ensures
            r@ == collection_uri_text(self@, opt_str(page)),
    {
        let mut s = self.blog_root();
        s.append("/atom/entry");
        match page {
            Some(p) => {
                s.append("?page=");
                s.append(p);
            },
            None => {},
        }
        proof {
            match page {
                Some(p) => {},
                None => {
                    assert(s@ =~= collection_uri_text(self@, opt_str(page)));
                },
            }
        }
        s
    }

    pub fn member_uri(&self, entry_id: &EntryId) -> (r: String)
        ensures
            r@ == member_uri_text(self@, entry_id@),
    {
        let mut s = self.blog_root();
        s.append("/atom/entry/");
        s.append(entry_id.as_str());
        s
    }

    /// The request that creates an entry: a POST of its document to the
    /// collection.
    pub fn create_entry_request(&self, entry_params: EntryParams) -> (r: Request)
        ensures
            r.method == Method::Post,
            r.url@ == collection_uri_text(self@, None),
            r.body matches Some(b) && b@ == entry_xml(entry_params@),
    {
        let body = entry_params.into_xml();
        Request { method: Method::Post, url: self.collection_uri(None), body: Some(body) }
    }

    /// The request that deletes an entry.
    pub fn delete_entry_request(&self, entry_id: &EntryId) -> (r: Request)
        ensures
            r.method == Method::Delete,
            r.url@ == member_uri_text(self@, entry_id@),
            r.body is None,
    {
        Request { method: Method::Delete, url: self.member_uri(entry_id), body: None }
    }

    /// The request that fetches an entry.
    pub fn get_entry_request(&self, entry_id: &EntryId) -> (r: Request)
        ensures
            r.method == Method::Get,
            r.url@ == member_uri_text(self@, entry_id@),
            r.body is None,
    {
        Request { method: Method::Get, url: self.member_uri(entry_id), body: None }
    }

    /// The request that fetches the category document.
    pub fn list_categories_request(&self) -> (r: Request)
        ensures
            r.method == Method::Get,
            r.url@ == category_document_uri_text(self@),
            r.body is None,
    {
        Request { method: Method::Get, url: self.category_document_uri(), body: None }
    }

    /// The request that fetches one page of the entry collection.
    pub fn list_entries_in_page_request(&self, page: Option<&str>) -> (r: Request)
        ensures
            r.method == Method::Get,
            r.url@ == collection_uri_text(self@, opt_str(page)),
            r.body is None,
    {
        Request { method: Method::Get, url: self.collection_uri(page), body: None }
    }

    /// The request that replaces an entry: a PUT of its document to the
    /// entry's address.
    pub fn update_entry_request(&self, entry_id: &EntryId, entry_params: EntryParams) -> (r: Request)
        ensures
            r.method == Method::Put,
            r.url@ == member_uri_text(self@, entry_id@),
            r.body matches Some(b) && b@ == entry_xml(entry_params@),
    {
        let body = entry_params.into_xml();
        Request { method: Method::Put, url: self.member_uri(entry_id), body: Some(body) }
    }
}

} // verus!
