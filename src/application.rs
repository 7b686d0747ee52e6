use std::collections::HashMap;
use vstd::prelude::*;
use vstd::string::*;

verus! {

/// Everything that can abort a lookup.
#[derive(Debug)]
pub enum ApplicationError {
    MutexError,
    IOError(String),
    SqliteError(String),
    ReqwestError(String),
    SerdeJsonError(String),
    UrlParseError,
    FilePathToStrError,
    FileDownloadFail(String),
    OkOrError(String),
    /// An event reached a resolver in a phase that does not expect it.
    UnexpectedEvent,
}

/// How a metadata entry's content is to be read.
#[derive(Clone, Copy, Debug, PartialEq, Eq, Structural)]
pub enum MetaValueType {
    TypeNumber,
    TypeString,
    TypeBool,
}

/// One metadata entry of a descriptor.
#[derive(Clone, Debug)]
pub struct MetaValue {
    pub content: String,
    pub value_type: MetaValueType,
    pub description: String,
}

/// A script that the entry module loads.
#[derive(Clone, Debug)]
pub struct Source {
    pub src: String,
    pub is_async: bool,
}

/// The module that boots an application.
#[derive(Clone, Debug)]
pub struct ModuleInfo {
    pub app_id: String,
    pub id: String,
    pub version: String,
    pub os: String,
    pub agent: String,
    pub script: Vec<Source>,
    pub ttf: String,
}

/// An application descriptor, as the server publishes it.
#[derive(Clone, Debug)]
pub struct AppInfo {
    pub app_id: String,
    pub version: i32,
    pub force: bool,
    pub os: String,
    pub use_app_store: bool,
    pub app_uri: String,
    pub meta_info: HashMap<String, MetaValue>,
    pub entry: ModuleInfo,
}

/// A cache record: a downloaded resource and the digest of its file.
#[derive(Clone, Debug)]
pub struct Resource {
    pub id: i64,
    pub url: String,
    pub path: String,
    pub hash_code: String,
    pub cache_ctrl: String,
}

/// Where the store and the downloaded files live.
#[derive(Debug)]
pub struct Context {
    db_path: String,
    cache_dir: String,
}

impl Context {
    pub closed spec fn db_path_spec(&self) -> Seq<char> {
        self.db_path@
    }

    pub closed spec fn cache_dir_spec(&self) -> Seq<char> {
        self.cache_dir@
    }

    pub fn new(db_path: &str, cache_dir: &str) -> (r: Self)
        ensures
            r.db_path_spec() == db_path@,
            r.cache_dir_spec() == cache_dir@,
    {
        Context { db_path: String::from_str(db_path), cache_dir: String::from_str(cache_dir) }
    }

    pub fn db_path(&self) -> (r: &str)
        ensures
            r@ == self.db_path_spec(),
    {
        self.db_path.as_str()
    }

    pub fn cache_dir(&self) -> (r: &str)
        ensures
            r@ == self.cache_dir_spec(),
    {
        self.cache_dir.as_str()
    }
}

} // verus!
