//! What the daemon asks of every app manifest, whether it describes a single container or a
//! composition of several.
use crate::app::AppKey;
use crate::manifest::providers::Providers;
use crate::manifest::{Dependency, DependencyKey};
use crate::text::{chars_equal, chars_of_string};
use vstd::prelude::*;

verus! {

/// The parts of a manifest that both kinds of manifests have.
#[derive(Debug, PartialEq, Eq)]
pub struct ManifestInfo {
    pub key: AppKey,
    pub revision: Option<String>,
    /// The dependencies, each key once.
    pub depends: Vec<(DependencyKey, Dependency)>,
    pub specific_providers: Providers,
}

/// An app manifest: for one container, or for a composition of several.
#[derive(Debug, PartialEq, Eq)]
pub enum AppManifest {
    Single(ManifestInfo),
    Multi(ManifestInfo),
}

impl AppManifest {
    /// The parts both kinds of manifests have.
    pub open spec fn info(&self) -> ManifestInfo {
        match self {
            AppManifest::Single(i) => *i,
            AppManifest::Multi(i) => *i,
        }
    }

    fn info_ref(&self) -> (res: &ManifestInfo)
        ensures
            *res == self.info(),
    {
        match self {
            AppManifest::Single(i) => i,
            AppManifest::Multi(i) => i,
        }
    }

    /// The key of the app.
    pub fn key(&self) -> (res: &AppKey)
        ensures
            *res == self.info().key,
    {
        &self.info_ref().key
    }

    /// The revision of the manifest, where it has one.
    pub fn revision(&self) -> (res: Option<&String>)
        ensures
            match self.info().revision {
                Some(r) => res == Some(&r),
                None => res is None,
            },
    {
        match &self.info_ref().revision {
            Some(r) => Some(r),
            None => None,
        }
    }

    /// The dependencies of the app.
    pub fn depends(&self) -> (res: &Vec<(DependencyKey, Dependency)>)
        ensures
            *res == self.info().depends,
    {
        &self.info_ref().depends
    }

    /// The providers the app brings along.
    pub fn specific_providers(&self) -> (res: &Providers)
        ensures
            *res == self.info().specific_providers,
    {
        &self.info_ref().specific_providers
    }

    /// The dependency with the key `key`, where the app has one.
    pub fn depend(&self, key: &DependencyKey) -> (res: Option<&Dependency>)
        ensures
            match res {
                Some(d) => exists|i: int|
                    0 <= i < self.info().depends@.len() && (#[trigger] self.info().depends@[i]).0@
                        == key@ && self.info().depends@[i].1 == *d,
                None => forall|i: int|
                    0 <= i < self.info().depends@.len() ==> (#[trigger] self.info().depends@[
                        i
                    ]).0@ != key@,
            },
    {
        let depends = &self.info_ref().depends;
        let wanted = chars_of_string(&key.to_string());
        let mut i: usize = 0;
        while i < depends.len()
            invariant
                i <= depends@.len(),
                *depends == self.info().depends,
                wanted@ == key@,
                forall|k: int| 0 <= k < i ==> (#[trigger] depends@[k]).0@ != key@,
            decreases depends@.len() - i,
        {
            if chars_equal(&chars_of_string(&depends[i].0.to_string()), &wanted) {
                return Some(&depends[i].1);
            }
            i = i + 1;
        }
        None
    }
}

} // verus!
