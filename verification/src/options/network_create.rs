//! Options for creating a network.

use crate::options::{Labels, ShipliftOption};
use crate::http_client::Method;
use vstd::prelude::*;
use vstd::string::StringExecFns;

verus! {

/// The driver that runs a network.
#[derive(Debug, Clone, Copy, PartialEq, Eq, Structural)]
pub enum Driver {
    Bridge,
}

/// What a new network is created with.
#[derive(Debug, Clone)]
pub struct Options<'a> {
    name: &'a str,
    check_duplicate: bool,
    driver: Driver,
    labels: Labels,
}

/// A set of network options as a mathematical value.
pub struct NetworkSpec {
    pub name: Seq<char>,
    pub check_duplicate: bool,
    pub driver: Driver,
    pub labels: Map<Seq<char>, Seq<char>>,
}

impl<'a> View for Options<'a> {
    type V = NetworkSpec;

    closed spec fn view(&self) -> NetworkSpec {
        NetworkSpec {
            name: self.name@,
            check_duplicate: self.check_duplicate,
            driver: self.driver,
            labels: self.labels@,
        }
    }
}

impl<'a> Options<'a> {
    /// Options for a network called `name`: a bridge without labels that
    /// may share its name with another.
    pub fn new(name: &'a str) -> (options: Options<'a>)
        ensures
            options@ == (NetworkSpec {
                name: name@,
                check_duplicate: false,
                driver: Driver::Bridge,
                labels: Map::empty(),
            }),
    {
        Options { name, check_duplicate: false, driver: Driver::Bridge, labels: Labels::new() }
    }

    /// Sets the label `key` to `value`.
    pub fn label(self, key: &'a str, value: &'a str) -> (options: Options<'a>)
        ensures
            options@ == (NetworkSpec { labels: self@.labels.insert(key@, value@), ..self@ }),
    {
        let mut options = self;
        options.labels = options.labels.insert(key, value);
        options
    }

    /// Sets the driver.
    pub fn driver(self, driver: Driver) -> (options: Options<'a>)
        ensures
            options@ == (NetworkSpec { driver, ..self@ }),
    {
        let mut options = self;
        options.driver = driver;
        options
    }

    /// The name of the network.
    pub fn name(&self) -> (name: &'a str)
        ensures
            name@ == self@.name,
    {
        self.name
    }

    /// Whether the daemon is to refuse a name that is taken.
    pub fn check_duplicate(&self) -> (check: bool)
        ensures
            check == self@.check_duplicate,
    {
        self.check_duplicate
    }

    /// The driver that was chosen.
    pub fn chosen_driver(&self) -> (driver: Driver)
        ensures
            driver == self@.driver,
    {
        self.driver
    }

    /// The labels.
    pub fn labels(&self) -> (labels: &Labels)
        ensures
            labels@ == self@.labels,
    {
        &self.labels
    }
}

impl<'a> ShipliftOption for Options<'a> {
    open spec fn endpoint_path(&self) -> Seq<char> {
        "/networks/create"@
    }

    fn method(&self) -> (method: Method) {
        Method::Post
    }

    fn endpoint(&self) -> (endpoint: String) {
        String::from_str("/networks/create")
    }
}

} // verus!
