//! The application object's own settable state: its name and version, the
//! organization behind it, and the library search paths, with the
//! documented prepend-if-new rule for adding a path.

use vstd::prelude::*;

use crate::qstring::QString;

verus! {

/// The application state the object model exposes.
#[derive(PartialEq, Eq, Debug)]
pub struct QGuiApplication {
    /// The name of this application.
    pub name: QString,
    /// The version of this application.
    pub version: QString,
    /// The name of the organization that wrote this application.
    pub org_name: QString,
    /// The Internet domain of the organization that wrote this application.
    pub org_domain: QString,
    /// The paths searched when dynamically loading libraries, in order.
    pub paths: Vec<QString>,
}

/// Whether some path in the list spells exactly `path`.
pub open spec fn spec_contains_path(paths: Seq<Seq<u16>>, path: Seq<u16>) -> bool {
    exists|i: int| 0 <= i < paths.len() && paths[i] == path
}

impl QGuiApplication {
    /// An application with empty settings and no library paths.
    pub fn with_defaults() -> (r: QGuiApplication)
        ensures
            r.name@.len() == 0,
            r.version@.len() == 0,
            r.org_name@.len() == 0,
            r.org_domain@.len() == 0,
            r.paths@.len() == 0,
    {
        QGuiApplication {
            name: QString::new(),
            version: QString::new(),
            org_name: QString::new(),
            org_domain: QString::new(),
            paths: Vec::new(),
        }
    }

    /// The name of this application.
    pub fn application_name(&self) -> (r: QString)
        ensures
            r@ == self.name@,
    {
        self.name.clone_string()
    }

    /// The version of this application.
    pub fn application_version(&self) -> (r: QString)
        ensures
            r@ == self.version@,
    {
        self.version.clone_string()
    }

    /// The name of the organization that wrote this application.
    pub fn organization_name(&self) -> (r: QString)
        ensures
            r@ == self.org_name@,
    {
        self.org_name.clone_string()
    }

    /// The Internet domain of the organization that wrote this application.
    pub fn organization_domain(&self) -> (r: QString)
        ensures
            r@ == self.org_domain@,
    {
        self.org_domain.clone_string()
    }

    /// Set the name of this application.
    pub fn set_application_name(&mut self, name: &QString)
        ensures
            final(self).name@ == name@,
            final(self).version == old(self).version,
            final(self).org_name == old(self).org_name,
            final(self).org_domain == old(self).org_domain,
            final(self).paths == old(self).paths,
    {
        self.name = name.clone_string();
    }

    /// Set the version of this application.
    pub fn set_application_version(&mut self, version: &QString)
        ensures
            final(self).version@ == version@,
            final(self).name == old(self).name,
            final(self).org_name == old(self).org_name,
            final(self).org_domain == old(self).org_domain,
            final(self).paths == old(self).paths,
    {
        self.version = version.clone_string();
    }

    /// Set the name of the organization that wrote this application.
    pub fn set_organization_name(&mut self, name: &QString)
        ensures
            final(self).org_name@ == name@,
            final(self).name == old(self).name,
            final(self).version == old(self).version,
            final(self).org_domain == old(self).org_domain,
            final(self).paths == old(self).paths,
    {
        self.org_name = name.clone_string();
    }

    /// Set the Internet domain of the organization that wrote this
    /// application.
    pub fn qguiapplication_set_organization_domain(&mut self, domain: &QString)
        ensures
            final(self).org_domain@ == domain@,
            final(self).name == old(self).name,
            final(self).version == old(self).version,
            final(self).org_name == old(self).org_name,
            final(self).paths == old(self).paths,
    {
        self.org_domain = domain.clone_string();
    }

    /// The paths the application searches when dynamically loading
    /// libraries.
    #[verifier::loop_isolation(false)]
    pub fn library_paths(&self) -> (r: Vec<QString>)
        ensures
            r@.map_values(|p: QString| p@) == self.paths@.map_values(|p: QString| p@),
    {
        let ghost gpaths = self.paths@.map_values(|p: QString| p@);
        let mut out: Vec<QString> = Vec::new();
        proof {
            assert(out@.map_values(|p: QString| p@) =~= gpaths.subrange(0, 0));
        }
        let mut i: usize = 0;
        while i < self.paths.len()
            invariant
                0 <= i <= self.paths@.len(),
                gpaths == self.paths@.map_values(|p: QString| p@),
                out@.map_values(|p: QString| p@) == gpaths.subrange(0, i as int),
            decreases self.paths@.len() - i,
        {
            out.push(self.paths[i].clone_string());
            proof {
                assert(out@.map_values(|p: QString| p@) =~= gpaths.subrange(0, i + 1int));
            }
            i = i + 1;
        }
        proof {
            assert(gpaths.subrange(0, gpaths.len() as int) =~= gpaths);
        }
        out
    }

    /// Replace the library path list with the given paths.
    pub fn set_library_paths(&mut self, paths: Vec<QString>)
        ensures
            final(self).paths@ == paths@,
            final(self).name == old(self).name,
            final(self).version == old(self).version,
            final(self).org_name == old(self).org_name,
            final(self).org_domain == old(self).org_domain,
    {
        self.paths = paths;
    }

    /// Prepend the path to the beginning of the library path list, so it is
    /// searched first. An empty path, and a path already in the list, leave
    /// the list unchanged.
    #[verifier::loop_isolation(false)]
    pub fn add_library_path(&mut self, path: &QString)
        ensures
            ({
                let gpaths = old(self).paths@.map_values(|p: QString| p@);
                let gnew = final(self).paths@.map_values(|p: QString| p@);
                &&& final(self).name == old(self).name
                &&& final(self).version == old(self).version
                &&& final(self).org_name == old(self).org_name
                &&& final(self).org_domain == old(self).org_domain
                &&& if path@.len() == 0 || spec_contains_path(gpaths, path@) {
                    gnew == gpaths
                } else {
                    gnew == seq![path@] + gpaths
                }
            }),
    {
        let ghost gpaths = self.paths@.map_values(|p: QString| p@);
        if path.is_empty() {
            return ;
        }
        let mut i: usize = 0;
        while i < self.paths.len()
            invariant
                0 <= i <= self.paths@.len(),
                self.paths@.map_values(|p: QString| p@) == gpaths,
                *self == *old(self),
                forall|j: int| 0 <= j < i ==> gpaths[j] != path@,
            decreases self.paths@.len() - i,
        {
            if self.paths[i].eq_units(path) {
                proof {
                    assert(gpaths[i as int] == path@);
                    assert(spec_contains_path(gpaths, path@));
                }
                return ;
            }
            i = i + 1;
        }
        proof {
            assert(!spec_contains_path(gpaths, path@));
        }
        self.paths.insert(0, path.clone_string());
        proof {
            assert(self.paths@.map_values(|p: QString| p@) =~= seq![path@] + gpaths);
        }
    }
}

} // verus!
