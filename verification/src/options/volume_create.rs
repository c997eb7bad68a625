//! Options for creating a volume.

use crate::options::{Labels, ShipliftOption};
use crate::http_client::Method;
use vstd::prelude::*;
use vstd::string::StringExecFns;

verus! {

/// The driver that stores a volume.
#[derive(Debug, Clone, Copy, PartialEq, Eq, Structural)]
pub enum Driver {
    Local,
}

/// What a new volume is created with.
#[derive(Debug, Clone)]
pub struct Options<'a> {
    name: Option<&'a str>,
    driver: Option<Driver>,
    driver_opts: Labels,
    labels: Labels,
}

/// A set of volume options as a mathematical value.
pub struct VolumeSpec {
    pub name: Option<Seq<char>>,
    pub driver: Option<Driver>,
    pub driver_opts: Map<Seq<char>, Seq<char>>,
    pub labels: Map<Seq<char>, Seq<char>>,
}

impl<'a> View for Options<'a> {
    type V = VolumeSpec;

    closed spec fn view(&self) -> VolumeSpec {
        VolumeSpec {
            name: match self.name {
                Some(name) => Some(name@),
                None => None,
            },
            driver: self.driver,
            driver_opts: self.driver_opts@,
            labels: self.labels@,
        }
    }
}

impl<'a> Options<'a> {
    /// Options that leave everything to the daemon.
    pub fn new() -> (options: Options<'a>)
        ensures
            options@ == (VolumeSpec {
                name: None,
                driver: None,
                driver_opts: Map::empty(),
                labels: Map::empty(),
            }),
    {
        Options { name: None, driver: None, driver_opts: Labels::new(), labels: Labels::new() }
    }

    /// Sets the name of the volume.
    pub fn name(self, name: &'a str) -> (options: Options<'a>)
        ensures
            options@ == (VolumeSpec { name: Some(name@), ..self@ }),
    {
        let mut options = self;
        options.name = Some(name);
        options
    }

    /// Sets the label `key` to `value`.
    pub fn label(self, key: &'a str, value: &'a str) -> (options: Options<'a>)
        ensures
            options@ == (VolumeSpec { labels: self@.labels.insert(key@, value@), ..self@ }),
    {
        let mut options = self;
        options.labels = options.labels.insert(key, value);
        options
    }

    /// The name, if one was set.
    pub fn chosen_name(&self) -> (name: Option<&'a str>)
        ensures
            match name {
                Some(name) => self@.name == Some(name@),
                None => self@.name is None,
            },
    {
        self.name
    }

    /// The labels.
    pub fn labels(&self) -> (labels: &Labels)
        ensures
            labels@ == self@.labels,
    {
        &self.labels
    }
}

impl<'a> ShipliftOption for Options<'a> {
    open spec fn endpoint_path(&self) -> Seq<char> {
        "/volumes/create"@
    }

    fn method(&self) -> (method: Method) {
        Method::Post
    }

    fn endpoint(&self) -> (endpoint: String) {
        String::from_str("/volumes/create")
    }
}

} // verus!
