use vstd::prelude::*;
use vstd::string::StringExecFns;

verus! {

/// Where and as whom the client talks to the blog service.
#[derive(Clone, Debug, PartialEq, Eq)]
pub struct Config {
    pub api_key: String,
    pub base_url: String,
    pub blog_id: String,
    pub hatena_id: String,
}

/// A setting that must be given was not.
#[derive(Clone, Copy, Debug, PartialEq, Eq)]
pub enum ConfigError {
    InvalidVar,
}

impl ConfigError {
    /// A short description of the error.
    pub fn to_string(&self) -> (r: String)
        ensures
            r@ == "not present"@,
    {
        String::from_str("not present")
    }
}

/// The address of the production service.
pub open spec fn default_base_url() -> Seq<char> {
    "https://blog.hatena.ne.jp"@
}

impl Config {
    /// A configuration; the base URL is the production service's where none
    /// is given.
    pub fn new(hatena_id: &str, base_url: Option<&str>, blog_id: &str, api_key: &str) -> (r: Config)
        ensures
            r.api_key@ == api_key@,
            r.blog_id@ == blog_id@,
            r.hatena_id@ == hatena_id@,
            r.base_url@ == match base_url {
                Some(u) => u@,
                None => default_base_url(),
            },
    {
        Config {
            api_key: String::from_str(api_key),
            base_url: match base_url {
                Some(u) => String::from_str(u),
                None => String::from_str("https://blog.hatena.ne.jp"),
            },
            blog_id: String::from_str(blog_id),
            hatena_id: String::from_str(hatena_id),
        }
    }
}

} // verus!
