//! The configuration document: named, platform-scoped entries, each with
//! its links and optional lifecycle hooks, plus the path of the dotfiles
//! repository that anchors relative link sources.
//!
//! Reading and deserializing the document happens outside; this module owns
//! the records and the lookup logic, in particular that looking an entry up
//! by name treats a duplicated name as an error rather than picking one.

use vstd::prelude::*;
pub use crate::hooks::HookExecutionTime;
pub use crate::hooks::HookSpec;
pub use crate::links::LinkMode;
pub use crate::links::LinkSpec;

verus! {

/// The default location of the configuration document.
pub const CONFIG_FILE: &'static str = "~/.dotctl";

/// Whether a configuration entry is eligible at all.
#[derive(Debug, Clone, Copy, PartialEq, Eq, Structural)]
pub enum ConfigStatus {
    /// The entry takes part in setup and teardown.
    Active,
    /// The entry is kept in the document but skipped.
    Archived,
}

/// Options that apply to the whole document.
#[derive(Debug)]
pub struct DotfileOptions {
    repository: String,
}

impl DotfileOptions {
    /// The path of the dotfiles repository root.
    pub closed spec fn spec_repository(&self) -> Seq<char> {
        self.repository@
    }

    pub fn new(repository: String) -> (r: Self)
        ensures
            r.spec_repository() == repository@,
    {
        DotfileOptions { repository }
    }

    pub fn repository(&self) -> (r: &String)
        ensures
            r@ == self.spec_repository(),
    {
        &self.repository
    }
}

/// One named, platform-scoped bundle of links and hooks.
#[derive(Debug)]
pub struct ConfigSpec {
    name: String,
    os: String,
    status: ConfigStatus,
    links: Vec<LinkSpec>,
    hooks: Option<Vec<HookSpec>>,
}

impl ConfigSpec {
    /// The entry's name, the key it is looked up by.
    pub closed spec fn spec_name(&self) -> Seq<char> {
        self.name@
    }

    /// The platform identifier the entry is scoped to.
    pub closed spec fn spec_os(&self) -> Seq<char> {
        self.os@
    }

    /// Whether the entry is active or archived.
    pub closed spec fn spec_status(&self) -> ConfigStatus {
        self.status
    }

    /// The entry's links, in declared order.
    pub closed spec fn spec_links(&self) -> Seq<LinkSpec> {
        self.links@
    }

    /// The entry's hooks, in declared order, when it has any.
    pub closed spec fn spec_hooks(&self) -> Option<Vec<HookSpec>> {
        self.hooks
    }

    pub fn new(
        name: String,
        os: String,
        status: ConfigStatus,
        links: Vec<LinkSpec>,
        hooks: Option<Vec<HookSpec>>,
    ) -> (r: Self)
        ensures
            r.spec_name() == name@,
            r.spec_os() == os@,
            r.spec_status() == status,
            r.spec_links() == links@,
            r.spec_hooks() == hooks,
    {
        ConfigSpec { name, os, status, links, hooks }
    }

    pub fn assigned_name(&self) -> (r: &String)
        ensures
            r@ == self.spec_name(),
    {
        &self.name
    }

    pub fn config_os(&self) -> (r: &String)
        ensures
            r@ == self.spec_os(),
    {
        &self.os
    }

    pub fn status(&self) -> (r: &ConfigStatus)
        ensures
            *r == self.spec_status(),
    {
        &self.status
    }

    pub fn links(&self) -> (r: &Vec<LinkSpec>)
        ensures
            r@ == self.spec_links(),
    {
        &self.links
    }

    pub fn hooks(&self) -> (r: &Option<Vec<HookSpec>>)
        ensures
            *r == self.spec_hooks(),
    {
        &self.hooks
    }

    /// Whether this entry is the one asked for: its name equals the
    /// requested application name and its platform equals the running one.
    pub fn applies_to(&self, appname: &str, os: &str) -> (r: bool)
        ensures
            r == (self.spec_name() == appname@ && self.spec_os() == os@),
    {
        crate::appconf::str_eq(self.name.as_str(), appname) && crate::appconf::str_eq(
            self.os.as_str(),
            os,
        )
    }
}

/// Why a lookup by name failed.
#[derive(Debug, Clone, Copy, PartialEq, Eq, Structural)]
pub enum AppconfSearchError {
    /// No entry carries the requested name.
    NoneFound,
    /// More than one entry carries the requested name.
    MultipleFound,
}

impl AppconfSearchError {
    /// What the error means, as one line of text.
    pub open spec fn spec_message(&self) -> Seq<char> {
        match self {
            AppconfSearchError::NoneFound => "No matching element found"@,
            AppconfSearchError::MultipleFound => "Multiple matching elements found"@,
        }
    }

    pub fn message(&self) -> (r: String)
        ensures
            r@ == self.spec_message(),
    {
        match self {
            AppconfSearchError::NoneFound => "No matching element found".to_owned(),
            AppconfSearchError::MultipleFound => "Multiple matching elements found".to_owned(),
        }
    }
}

/// The whole configuration document.
#[derive(Debug)]
pub struct DotfileConfiguration {
    configurations: Vec<ConfigSpec>,
    options: DotfileOptions,
}

impl DotfileConfiguration {
    /// The configuration entries, in document order.
    pub closed spec fn spec_configurations(&self) -> Seq<ConfigSpec> {
        self.configurations@
    }

    /// The path of the dotfiles repository root.
    pub closed spec fn spec_repository(&self) -> Seq<char> {
        self.options.spec_repository()
    }

    pub fn new(configurations: Vec<ConfigSpec>, options: DotfileOptions) -> (r: Self)
        ensures
            r.spec_configurations() == configurations@,
            r.spec_repository() == options.spec_repository(),
    {
        DotfileConfiguration { configurations, options }
    }

    pub fn all_configs(&self) -> (r: &Vec<ConfigSpec>)
        ensures
            r@ == self.spec_configurations(),
    {
        &self.configurations
    }

    /// Looks the entry with the given name up.  The name must pick exactly
    /// one entry: with none the lookup fails with `NoneFound`, and a
    /// duplicated name is an error, never a silent choice of one.
    pub fn find_appconf(&self, appname: &String) -> (r: Result<&ConfigSpec, AppconfSearchError>)
        ensures
            r == Err::<&ConfigSpec, AppconfSearchError>(AppconfSearchError::NoneFound) <==> (forall|
                i: int,
            |
                0 <= i < self.spec_configurations().len() ==> (#[trigger] self.spec_configurations(
                )[i]).spec_name() != appname@),
            r == Err::<&ConfigSpec, AppconfSearchError>(AppconfSearchError::MultipleFound) <==> (
            exists|i: int, j: int|
                0 <= i < j < self.spec_configurations().len() && (
                #[trigger] self.spec_configurations()[i]).spec_name() == appname@ && (
                #[trigger] self.spec_configurations()[j]).spec_name() == appname@),
            r matches Ok(c) ==> c.spec_name() == appname@ && (exists|i: int|
                0 <= i < self.spec_configurations().len() && self.spec_configurations()[i] == *c),
    {
        let mut found_index: Option<usize> = None;
        let n = self.configurations.len();
        let mut i: usize = 0;
        while i < n
            invariant
                i <= n,
                n == self.spec_configurations().len(),
                (match found_index {
                    Some(fi) => fi < i && self.spec_configurations()[fi as int].spec_name()
                        == appname@ && (forall|j: int|
                        0 <= j < i && j != fi ==> (#[trigger] self.spec_configurations()[j]).spec_name()
                            != appname@),
                    None => forall|j: int|
                        0 <= j < i ==> (#[trigger] self.spec_configurations()[j]).spec_name()
                            != appname@,
                }),
            decreases n - i,
        {
            if self.configurations[i].name == *appname {
                if found_index.is_some() {
                    return Err(AppconfSearchError::MultipleFound);
                }
                found_index = Some(i);
            }
            i += 1;
        }
        match found_index {
            Some(index) => Ok(&self.configurations[index]),
            None => Err(AppconfSearchError::NoneFound),
        }
    }

    pub fn config_repo(&self) -> (r: &String)
        ensures
            r@ == self.spec_repository(),
    {
        &self.options.repository
    }

    /// The positions of the entries that apply to the given name and
    /// platform, in document order: every position selected applies, and
    /// every entry that applies is selected.
    pub fn select_indices(&self, appname: &str, os: &str) -> (r: Vec<usize>)
        ensures
            forall|k: int|
                0 <= k < r@.len() ==> (#[trigger] r@[k]) < self.spec_configurations().len()
                    && self.spec_configurations()[r@[k] as int].spec_name() == appname@
                    && self.spec_configurations()[r@[k] as int].spec_os() == os@,
            forall|k1: int, k2: int| 0 <= k1 < k2 < r@.len() ==> r@[k1] < r@[k2],
            forall|i: int|
                0 <= i < self.spec_configurations().len() && (
                #[trigger] self.spec_configurations()[i]).spec_name() == appname@
                    && self.spec_configurations()[i].spec_os() == os@ ==> r@.contains(i as usize),
    {
        let mut r: Vec<usize> = Vec::new();
        let n = self.configurations.len();
        let mut i: usize = 0;
        while i < n
            invariant
                i <= n,
                n == self.spec_configurations().len(),
                forall|k: int|
                    0 <= k < r@.len() ==> (#[trigger] r@[k]) < i && self.spec_configurations()[
                        r@[k] as int
                    ].spec_name() == appname@ && self.spec_configurations()[r@[k] as int].spec_os()
                        == os@,
                forall|k1: int, k2: int| 0 <= k1 < k2 < r@.len() ==> r@[k1] < r@[k2],
                forall|j: int|
                    0 <= j < i && (#[trigger] self.spec_configurations()[j]).spec_name() == appname@
                        && self.spec_configurations()[j].spec_os() == os@ ==> r@.contains(
                        j as usize,
                    ),
            decreases n - i,
        {
            let ghost r_before = r@;
            if self.configurations[i].applies_to(appname, os) {
                r.push(i);
            }
            proof {
                assert forall|j: int|
                    0 <= j < i + 1 && (#[trigger] self.spec_configurations()[j]).spec_name()
                        == appname@ && self.spec_configurations()[j].spec_os()
                        == os@ implies r@.contains(j as usize) by {
                    if j == i {
                        assert(r@[r@.len() - 1] == i as usize);
                    } else {
                        assert(r_before.contains(j as usize));
                        let k = choose|k: int|
                            0 <= k < r_before.len() && r_before[k] == j as usize;
                        assert(r@[k] == j as usize);
                    }
                }
            }
            i += 1;
        }
        r
    }
}

} // verus!
