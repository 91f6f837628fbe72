//! The NPM dependencies that `package.json` files ask for.
use crate::bindings::PackageJson;
use crate::context::{done, failed, unit_view, Context, GlueView, Outcome};
use crate::error::{GlueError, GlueErrorView};
use crate::text::same;
use vstd::prelude::*;

verus! {

/// An entry of the dependencies: the package and its version, if that is a string.
pub type Dependency = (String, Option<String>);

/// An entry of a manifest: the key and the dependencies under it, if they are an object.
pub type ManifestEntry = (String, Option<Vec<Dependency>>);

/// The model of a [`Dependency`].
pub type DependencyView = (Seq<char>, Option<Seq<char>>);

/// The model of a [`ManifestEntry`].
pub type EntryView = (Seq<char>, Option<Seq<DependencyView>>);

/// The model of an entry of the dependencies.
pub open spec fn dependency_view(dependency: Dependency) -> DependencyView {
    (
        dependency.0@,
        match dependency.1 {
            Some(version) => Some(version@),
            None => None,
        },
    )
}

/// The model of the dependencies.
pub open spec fn dependencies_view(list: Seq<Dependency>) -> Seq<DependencyView> {
    list.map_values(|dependency: Dependency| dependency_view(dependency))
}

/// The model of an entry of a manifest.
pub open spec fn entry_view(entry: ManifestEntry) -> EntryView {
    (
        entry.0@,
        match entry.1 {
            Some(list) => Some(dependencies_view(list@)),
            None => None,
        },
    )
}

/// The model of a manifest, if it is an object.
pub open spec fn manifest_view(manifest: Option<Vec<ManifestEntry>>) -> Option<Seq<EntryView>> {
    match manifest {
        Some(entries) => Some(entries@.map_values(|entry: ManifestEntry| entry_view(entry))),
        None => None,
    }
}

/// What `serde_json::from_str` makes of a text: the entries where it is an object, and what the
/// error reads like where it is not JSON.
pub uninterp spec fn parsed_manifest(text: Seq<char>) -> Result<Option<Seq<EntryView>>, Seq<char>>;

/// `serde_json::from_str`, into a `serde_json::Value`: what the text holds, as far as objects of
/// objects of strings go, with the entries in the order of the iterator of `serde_json::Map`, or
/// what the error reads like. The result depends on the text alone.
#[verifier::external_body]
fn parse_manifest(text: &str) -> (r: Result<Option<Vec<ManifestEntry>>, String>)
    ensures
        match r {
            Ok(manifest) => parsed_manifest(text@) == Ok::<_, Seq<char>>(manifest_view(manifest)),
            Err(reason) => parsed_manifest(text@) == Err::<Option<Seq<EntryView>>, _>(reason@),
        },
{
    let parsed: Result<serde_json::Value, serde_json::Error> = serde_json::from_str(text);
    let json = parsed.map_err(|error| error.to_string())?;
    Ok(json.as_object().map(|object| object.iter().map(|(key, value)| {
        let list = value.as_object().map(|list| list.iter().map(|(name, version)| {
            (name.clone(), version.as_str().map(|version| version.to_string()))
        }).collect());
        (key.clone(), list)
    }).collect()))
}

impl GlueView {
    /// One dependency is added, unless its version is no string or another manifest asks for the
    /// same package.
    pub open spec fn add_dependency(self, path: Seq<char>, dependency: DependencyView) -> Outcome<
        (),
    > {
        let (name, version) = dependency;
        match version {
            None => failed(self, GlueErrorView::VersionNotString { path }),
            Some(version) => if self.dependencies.contains_key(name) {
                failed(
                    self,
                    GlueErrorView::DuplicateDependency {
                        name,
                        path,
                        previous: self.dependencies[name].0,
                    },
                )
            } else {
                done(
                    GlueView {
                        dependencies: self.dependencies.insert(name, (path, version)),
                        ..self
                    },
                    (),
                )
            },
        }
    }

    /// Dependencies are added, up to the first that cannot be.
    pub open spec fn add_dependencies(self, path: Seq<char>, list: Seq<DependencyView>) -> Outcome<
        (),
    >
        decreases list.len(),
    {
        if list.len() == 0 {
            done(self, ())
        } else {
            let before = self.add_dependencies(path, list.drop_last());
            match before.result {
                Ok(_) => before.state.add_dependency(path, list.last()),
                Err(error) => before,
            }
        }
    }

    /// The dependencies of a manifest are added. It has to be an object whose one key, if it has
    /// any, is `dependencies`, and these have to be an object too.
    pub open spec fn add_manifest(
        self,
        path: Seq<char>,
        manifest: Option<Seq<EntryView>>,
    ) -> Outcome<()> {
        match manifest {
            None => failed(self, GlueErrorView::ManifestNotObject { path }),
            Some(entries) => if entries.len() == 0 {
                done(self, ())
            } else if entries[0].0 != "dependencies"@ || entries.len() > 1 {
                failed(self, GlueErrorView::ManifestKeys { path })
            } else {
                match entries[0].1 {
                    None => failed(self, GlueErrorView::DependenciesNotObject { path }),
                    Some(list) => self.add_dependencies(path, list),
                }
            },
        }
    }

    /// Whether something installs the NPM dependencies of the glue.
    pub open spec fn installs_dependencies(self) -> bool {
        self.config.mode.nodejs() || self.config.mode.bundler()
    }

    /// The dependencies of a `package.json` are added, which holds `contents`, or cannot be read
    /// for that reason.
    pub open spec fn process_package_json(
        self,
        path: Seq<char>,
        contents: Result<Seq<char>, Seq<char>>,
    ) -> Outcome<()> {
        if !self.installs_dependencies() {
            failed(self, GlueErrorView::DependenciesUnsupported { path })
        } else {
            match contents {
                Err(reason) => failed(self, GlueErrorView::UnreadableManifest { path, reason }),
                Ok(text) => match parsed_manifest(text) {
                    Err(reason) => failed(self, GlueErrorView::InvalidJson(reason)),
                    Ok(manifest) => self.add_manifest(path, manifest),
                },
            }
        }
    }
}

impl<'a> Context<'a> {
    /// Adds one dependency.
    fn add_dependency(&mut self, path: &str, dependency: &Dependency) -> (r: Result<(), GlueError>)
        requires
            old(self).wf(),
        ensures
            final(self).wf(),
            old(self)@.add_dependency(path@, dependency_view(*dependency)) == (Outcome {
                state: final(self)@,
                result: unit_view(r),
            }),
    {
        proof {
            reveal(Context::model);
            reveal(Context::wf);
        }
        let name = dependency.0.as_str();
        let version = match &dependency.1 {
            Some(version) => version.clone(),
            None => return Err(GlueError::VersionNotString { path: path.to_string() }),
        };
        if let Some((previous, _)) = self.npm_dependencies.get(name) {
            return Err(
                GlueError::DuplicateDependency {
                    name: name.to_string(),
                    path: path.to_string(),
                    previous: previous.clone(),
                },
            );
        }
        self.npm_dependencies.entry(name, (path.to_string(), version));
        assert(self@.dependencies =~= old(self)@.dependencies.insert(name@, (path@, version@)));
        Ok(())
    }

    /// Adds the dependencies of a manifest. It has to be an object whose one key, if it has any,
    /// is `dependencies`, and these have to be an object too.
    pub fn add_manifest(&mut self, path: &str, manifest: &Option<Vec<ManifestEntry>>) -> (r: Result<
        (),
        GlueError,
    >)
        requires
            old(self).wf(),
        ensures
            final(self).wf(),
            old(self)@.add_manifest(path@, manifest_view(*manifest)) == (Outcome {
                state: final(self)@,
                result: unit_view(r),
            }),
    {
        let entries = match manifest {
            Some(entries) => entries,
            None => return Err(GlueError::ManifestNotObject { path: path.to_string() }),
        };
        if entries.len() == 0 {
            return Ok(());
        }
        assert(manifest_view(*manifest)->0[0] == entry_view(entries@[0]));
        if !same(entries[0].0.as_str(), "dependencies") || entries.len() > 1 {
            return Err(GlueError::ManifestKeys { path: path.to_string() });
        }
        let list = match &entries[0].1 {
            Some(list) => list,
            None => return Err(GlueError::DependenciesNotObject { path: path.to_string() }),
        };
        let ghost start = self@;
        let ghost all = dependencies_view(list@);
        let mut i: usize = 0;
        assert(all.take(0) == Seq::<DependencyView>::empty());
        while i < list.len()
            invariant
                i <= list.len(),
                all == dependencies_view(list@),
                self.wf(),
                start.add_dependencies(path@, all.take(i as int)) == done(self@, ()),
                old(self)@.add_manifest(path@, manifest_view(*manifest)) == start.add_dependencies(
                    path@,
                    all,
                ),
            decreases list.len() - i,
        {
            proof {
                let next = all.take(i as int + 1);
                assert(next.drop_last() == all.take(i as int));
                assert(next.last() == dependency_view(list@[i as int]));
            }
            match self.add_dependency(path, &list[i]) {
                Ok(()) => {},
                Err(error) => {
                    proof {
                        lemma_adding_stops(start, path@, all, i as int + 1);
                    }
                    return Err(error);
                },
            }
            i += 1;
        }
        assert(all.take(all.len() as int) == all);
        Ok(())
    }

    /// Adds the dependencies of a `package.json`.
    pub fn process_package_json(&mut self, file: &PackageJson) -> (r: Result<(), GlueError>)
        requires
            old(self).wf(),
        ensures
            final(self).wf(),
            old(self)@.process_package_json(file.path@, file.text()) == (Outcome {
                state: final(self)@,
                result: unit_view(r),
            }),
    {
        let path = file.path.as_str();
        let config = self.options();
        if !config.mode.nodejs() && !config.mode.bundler() {
            return Err(GlueError::DependenciesUnsupported { path: path.to_string() });
        }
        let contents = match &file.contents {
            Ok(contents) => contents,
            Err(reason) => return Err(
                GlueError::UnreadableManifest { path: path.to_string(), reason: reason.clone() },
            ),
        };
        match parse_manifest(contents.as_str()) {
            Ok(manifest) => self.add_manifest(path, &manifest),
            Err(reason) => Err(GlueError::InvalidJson(reason)),
        }
    }
}

/// The dependencies behind one that cannot be added are not added.
proof fn lemma_adding_stops(
    state: GlueView,
    path: Seq<char>,
    list: Seq<DependencyView>,
    n: int,
)
    requires
        0 <= n <= list.len(),
        state.add_dependencies(path, list.take(n)).result is Err,
    ensures
        state.add_dependencies(path, list) == state.add_dependencies(path, list.take(n)),
    decreases list.len() - n,
{
    if n == list.len() {
        assert(list.take(n) == list);
    } else {
        assert(list.take(n + 1).drop_last() == list.take(n));
        lemma_adding_stops(state, path, list, n + 1);
    }
}

} // verus!
