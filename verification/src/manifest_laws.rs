//! What holds of the NPM dependencies.
use crate::bindings::PackageJson;
use crate::context::GlueView;
use crate::error::GlueErrorView;
use crate::laws::{law_dependencies_added, law_dependencies_stay};
use crate::package_json::{parsed_manifest, DependencyView, EntryView};
use vstd::prelude::*;

verus! {

/// Whether dependencies can be added: each has a version, and no package is asked for twice.
pub open spec fn are_new(
    known: Map<Seq<char>, (Seq<char>, Seq<char>)>,
    list: Seq<DependencyView>,
) -> bool {
    &&& forall|i: int|
        0 <= i < list.len() ==> (#[trigger] list[i]).1 is Some && !known.contains_key(list[i].0)
    &&& forall|i: int, j: int|
        0 <= i < j < list.len() ==> (#[trigger] list[i]).0 != (#[trigger] list[j]).0
}

/// Dependencies are added if and only if each has a version and no package is asked for twice.
/// Just these are there in addition then, and nothing else changes in any case.
pub proof fn law_dependencies(state: GlueView, path: Seq<char>, list: Seq<DependencyView>)
    ensures
        ({
            let outcome = state.add_dependencies(path, list);
            let after = outcome.state.dependencies;
            &&& outcome.result is Ok <==> are_new(state.dependencies, list)
            &&& outcome.result is Ok ==> forall|name: Seq<char>| #[trigger]
                after.contains_key(name) <==> state.dependencies.contains_key(name) || exists|
                    i: int,
                |
                    0 <= i < list.len() && (#[trigger] list[i]).0 == name
            &&& outcome.state == (GlueView { dependencies: after, ..state })
        }),
    decreases list.len(),
{
    if list.len() > 0 {
        let rest = list.drop_last();
        let n = list.len() - 1;
        law_dependencies(state, path, rest);
        assert forall|i: int| 0 <= i < n implies rest[i] == #[trigger] list[i] by {}
        let before = state.add_dependencies(path, rest);
        if before.result is Ok {
            if before.state.dependencies.contains_key(list[n].0) {
                if !state.dependencies.contains_key(list[n].0) {
                    let i = choose|i: int| 0 <= i < n && (#[trigger] rest[i]).0 == list[n].0;
                    assert(list[i].0 == list[n].0);
                }
                assert(!are_new(state.dependencies, list));
            } else {
                assert forall|i: int| 0 <= i < n implies (#[trigger] list[i]).0 != list[n].0 by {
                    assert(rest[i].0 == list[i].0);
                    assert(before.state.dependencies.contains_key(rest[i].0));
                }
                assert forall|i: int| 0 <= i < n implies (#[trigger] list[i]).1 is Some
                    && !state.dependencies.contains_key(list[i].0) by {
                    assert(rest[i].1 is Some);
                }
                assert forall|i: int, j: int| 0 <= i < j < list.len() implies (
                #[trigger] list[i]).0 != (#[trigger] list[j]).0 by {
                    if j < n {
                        assert(rest[i].0 != rest[j].0);
                    }
                }
                if list[n].1 is Some {
                    assert(are_new(state.dependencies, list));
                    let after = state.add_dependencies(path, list).state.dependencies;
                    assert forall|name: Seq<char>| #[trigger]
                        after.contains_key(name) <==> state.dependencies.contains_key(name)
                            || exists|i: int| 0 <= i < list.len() && (#[trigger] list[i]).0
                            == name by {
                        if after.contains_key(name) && !state.dependencies.contains_key(name) {
                            if name == list[n].0 {
                            } else {
                                let i = choose|i: int| 0 <= i < n && (#[trigger] rest[i]).0 == name;
                                assert(list[i].0 == name);
                            }
                        }
                        if exists|i: int| 0 <= i < list.len() && (#[trigger] list[i]).0 == name {
                            let i = choose|i: int|
                                0 <= i < list.len() && (#[trigger] list[i]).0 == name;
                            if i < n {
                                assert(rest[i].0 == name);
                            }
                        }
                    }
                }
            }
        } else {
            if are_new(state.dependencies, list) {
                assert forall|i: int| 0 <= i < rest.len() implies (#[trigger] rest[i]).1 is Some
                    && !state.dependencies.contains_key(rest[i].0) by {
                    assert(list[i].1 is Some);
                }
                assert forall|i: int, j: int| 0 <= i < j < rest.len() implies (
                #[trigger] rest[i]).0 != (#[trigger] rest[j]).0 by {
                    assert(list[i].0 != list[j].0);
                }
                assert(are_new(state.dependencies, rest));
            }
        }
    }
}

/// The first dependency that cannot be added is what the error is about: it has no version, or the
/// package is asked for already, and then the error names the file that did.
pub proof fn law_refused_dependency(
    state: GlueView,
    path: Seq<char>,
    list: Seq<DependencyView>,
    i: int,
)
    requires
        0 <= i < list.len(),
        are_new(state.dependencies, list.take(i)),
        !are_new(state.dependencies, list.take(i + 1)),
    ensures
        ({
            let outcome = state.add_dependencies(path, list);
            let known = state.add_dependencies(path, list.take(i)).state.dependencies;
            &&& outcome.result == Err::<(), _>(
                if list[i].1 is None {
                    GlueErrorView::VersionNotString { path }
                } else {
                    GlueErrorView::DuplicateDependency {
                        name: list[i].0,
                        path,
                        previous: known[list[i].0].0,
                    }
                },
            )
            &&& outcome.state.dependencies == known
        }),
    decreases list.len(),
{
    law_dependencies(state, path, list.take(i));
    law_dependencies(state, path, list.take(i + 1));
    if i == list.len() - 1 {
        assert(list.take(i + 1) =~= list);
        assert(list.drop_last() =~= list.take(i));
    } else {
        let rest = list.drop_last();
        assert(rest.take(i) =~= list.take(i));
        assert(rest.take(i + 1) =~= list.take(i + 1));
        law_refused_dependency(state, path, rest, i);
    }
}

/// A manifest is accepted if and only if it is an object that is empty, or has the key
/// `dependencies` alone, and what stands there is an object of new packages with versions. Each way
/// to be refused has an error of its own.
pub proof fn law_manifest(state: GlueView, path: Seq<char>, manifest: Option<Seq<EntryView>>)
    ensures
        ({
            let outcome = state.add_manifest(path, manifest);
            let error = match outcome.result {
                Ok(_) => None,
                Err(error) => Some(error),
            };
            match manifest {
                None => error == Some(GlueErrorView::ManifestNotObject { path }),
                Some(entries) => {
                    let keys = entries.map_values(|entry: EntryView| entry.0);
                    let empty = keys == Seq::<Seq<char>>::empty();
                    let asks = keys == seq!["dependencies"@];
                    &&& empty ==> error is None && outcome.state == state
                    &&& asks && entries[0].1 is None ==> error == Some(
                        GlueErrorView::DependenciesNotObject { path },
                    )
                    &&& asks && entries[0].1 is Some ==> outcome == state.add_dependencies(
                        path,
                        entries[0].1->0,
                    )
                    &&& !empty && !asks <==> error == Some(GlueErrorView::ManifestKeys { path })
                },
            }
        }),
{
    if let Some(entries) = manifest {
        let keys = entries.map_values(|entry: EntryView| entry.0);
        let one = seq!["dependencies"@];
        assert(one.len() == 1 && one[0] == "dependencies"@);
        assert(keys.len() == entries.len());
        if entries.len() == 0 {
            assert(keys =~= Seq::<Seq<char>>::empty());
        } else {
            assert(keys[0] == entries[0].0);
            if entries.len() == 1 && entries[0].0 == "dependencies"@ {
                assert(keys =~= seq!["dependencies"@]);
                if let Some(list) = entries[0].1 {
                    lemma_no_key_error(state, path, list);
                }
            }
        }
    }
}

/// Dependencies are refused for their versions and their names alone.
proof fn lemma_no_key_error(state: GlueView, path: Seq<char>, list: Seq<DependencyView>)
    ensures
        state.add_dependencies(path, list).result matches Err(error) ==> error is VersionNotString
            || error is DuplicateDependency,
    decreases list.len(),
{
    if list.len() > 0 {
        lemma_no_key_error(state, path, list.drop_last());
    }
}

/// Dependencies are installed for Node.js and for bundlers, and refused elsewhere. A file that
/// cannot be read, and a text that is no JSON, are refused with the reason.
pub proof fn law_package_json(
    state: GlueView,
    path: Seq<char>,
    contents: Result<Seq<char>, Seq<char>>,
)
    ensures
        ({
            let outcome = state.process_package_json(path, contents);
            let installed = state.config.mode is Node || state.config.mode is Bundler;
            &&& !installed ==> outcome.state == state && outcome.result == Err::<(), _>(
                GlueErrorView::DependenciesUnsupported { path },
            )
            &&& installed ==> match contents {
                Err(reason) => outcome.state == state && outcome.result == Err::<(), _>(
                    GlueErrorView::UnreadableManifest { path, reason },
                ),
                Ok(text) => match parsed_manifest(text) {
                    Err(reason) => outcome.state == state && outcome.result == Err::<(), _>(
                        GlueErrorView::InvalidJson(reason),
                    ),
                    Ok(manifest) => outcome == state.add_manifest(path, manifest),
                },
            }
        }),
{
}

/// A manifest changes the dependencies alone, and keeps those that are there.
proof fn lemma_manifest_installs(
    state: GlueView,
    path: Seq<char>,
    contents: Result<Seq<char>, Seq<char>>,
)
    ensures
        ({
            let after = state.process_package_json(path, contents).state;
            &&& after == (GlueView { dependencies: after.dependencies, ..state })
            &&& state.dependencies.submap_of(after.dependencies)
        }),
{
    if let Ok(text) = contents {
        if let Ok(Some(entries)) = parsed_manifest(text) {
            if entries.len() > 0 {
                if let Some(list) = entries[0].1 {
                    law_dependencies(state, path, list);
                    assert forall|name: Seq<char>| #[trigger]
                        state.dependencies.contains_key(name) implies state.add_dependencies(
                        path,
                        list,
                    ).state.dependencies.contains_key(name) && state.add_dependencies(
                        path,
                        list,
                    ).state.dependencies[name] == state.dependencies[name] by {
                        law_dependencies_stay(state, path, list, name);
                    }
                }
            }
        }
    }
}

/// The files change the dependencies alone, and these do not depend on the TypeScript.
pub proof fn law_files_only_install(state: GlueView, files: Seq<PackageJson>, more: Seq<char>)
    ensures
        ({
            let outcome = state.process_package_jsons(files);
            let after = outcome.state;
            let state2 = GlueView { typescript: state.typescript + more, ..state };
            let outcome2 = state2.process_package_jsons(files);
            &&& after == (GlueView { dependencies: after.dependencies, ..state })
            &&& state.dependencies.submap_of(after.dependencies)
            &&& outcome2.result == outcome.result
            &&& outcome2.state == (GlueView { dependencies: after.dependencies, ..state2 })
        }),
    decreases files.len(),
{
    if files.len() > 0 {
        let rest = files.drop_last();
        law_files_only_install(state, rest, more);
        let before = state.process_package_jsons(rest).state;
        let before2 = GlueView { typescript: before.typescript + more, ..before };
        let state2 = GlueView { typescript: state.typescript + more, ..state };
        assert(state2.process_package_jsons(rest).state == before2);
        let (path, text) = (files.last().path@, files.last().text());
        lemma_manifest_installs(before, path, text);
        lemma_same_installs(before, before2, path, text);
        let after = state.process_package_jsons(files).state;
        assert forall|name: Seq<char>| #[trigger]
            state.dependencies.contains_key(name) implies after.dependencies.contains_key(name)
            && after.dependencies[name] == state.dependencies[name] by {
            assert(before.dependencies.contains_key(name));
        }
    }
}

/// What a file adds does not depend on the texts.
proof fn lemma_same_installs(
    a: GlueView,
    b: GlueView,
    path: Seq<char>,
    contents: Result<Seq<char>, Seq<char>>,
)
    requires
        a == (GlueView { typescript: a.typescript, ..b }),
    ensures
        ({
            let (x, y) = (a.process_package_json(path, contents), b.process_package_json(path, contents));
            &&& x.result == y.result
            &&& y.state == (GlueView { dependencies: x.state.dependencies, ..b })
        }),
{
    if let Ok(text) = contents {
        if let Ok(Some(entries)) = parsed_manifest(text) {
            if entries.len() > 0 {
                if let Some(list) = entries[0].1 {
                    lemma_same_added(a, b, path, list);
                }
            }
        }
    }
}

/// What dependencies add does not depend on the texts.
proof fn lemma_same_added(a: GlueView, b: GlueView, path: Seq<char>, list: Seq<DependencyView>)
    requires
        a == (GlueView { typescript: a.typescript, ..b }),
    ensures
        ({
            let (x, y) = (a.add_dependencies(path, list), b.add_dependencies(path, list));
            &&& x.result == y.result
            &&& y.state == (GlueView { dependencies: x.state.dependencies, ..b })
        }),
    decreases list.len(),
{
    if list.len() > 0 {
        lemma_same_added(a, b, path, list.drop_last());
    }
}

/// Where all files are accepted, every dependency of every file is there, with the file that asks
/// for it and the version that it asks for.
pub proof fn law_every_dependency_is_added(
    state: GlueView,
    files: Seq<PackageJson>,
    i: int,
    entries: Seq<EntryView>,
    list: Seq<DependencyView>,
    k: int,
)
    requires
        state.process_package_jsons(files).result is Ok,
        0 <= i < files.len(),
        files[i].text() matches Ok(text) && parsed_manifest(text) == Ok::<_, Seq<char>>(
            Some(entries),
        ),
        entries.len() > 0,
        entries[0].1 == Some(list),
        0 <= k < list.len(),
    ensures
        ({
            let after = state.process_package_jsons(files).state.dependencies;
            &&& list[k].1 is Some
            &&& after.contains_key(list[k].0)
            &&& after[list[k].0] == (files[i].path@, list[k].1->0)
        }),
    decreases files.len(),
{
    let rest = files.drop_last();
    let before = state.process_package_jsons(rest).state;
    if i < rest.len() {
        law_every_dependency_is_added(state, rest, i, entries, list, k);
        lemma_manifest_installs(before, files.last().path@, files.last().text());
    } else {
        law_dependencies_added(before, files[i].path@, list, k);
    }
}

} // verus!
