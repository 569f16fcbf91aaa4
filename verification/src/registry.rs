//! The plugin registry: turning discovered module files into metadata
//! entries and resolving an enabled-name list against them.
//!
//! Listing a directory and loading a module are the discoverer's business;
//! this module holds the decisions: which file names count as plugin
//! modules, that the first discovered entry wins a name, and how enabled
//! names resolve to entries (failing fast on the first unknown name).
use vstd::prelude::*;

use crate::strutil::{str_ends_with, str_eq};
use crate::PluginMetadata;

verus! {

/// The default plugin search directories: system-wide, site-local, and
/// user-home, searched in that order.
pub fn plugin_dirs() -> (r: Vec<String>)
    ensures
        r@.len() == 3,
        r@[0]@ == "/usr/lib/renovatio/plugins"@,
        r@[1]@ == "/usr/local/lib/renovatio/plugins"@,
        r@[2]@ == "~/.local/lib/renovatio/plugins"@,
{
    let mut dirs: Vec<String> = Vec::new();
    dirs.push("/usr/lib/renovatio/plugins".to_owned());
    dirs.push("/usr/local/lib/renovatio/plugins".to_owned());
    dirs.push("~/.local/lib/renovatio/plugins".to_owned());
    dirs
}

/// Relies on shellexpand::tilde: a path that does not start with '~' comes
/// back unchanged; a leading '~' is replaced by the user's home directory
/// where one is known, and stays in place otherwise.
#[verifier::external_body]
pub(crate) fn expand_tilde(path: &str) -> (r: String)
    ensures
        (path@.len() == 0 || path@[0] != '~') ==> r@ == path@,
        (path@.len() > 0 && path@[0] == '~') ==> exists|home: Seq<char>|
            r@ == #[trigger] (home + path@.skip(1)),
{
    shellexpand::tilde(path).to_string()
}

/// The search directories as filesystem paths: the user-home one has its
/// leading tilde expanded to the user's home directory (where one is known),
/// the fixed ones pass through unchanged.
pub fn expanded_plugin_dirs() -> (r: Vec<String>)
    ensures
        r@.len() == 3,
        r@[0]@ == "/usr/lib/renovatio/plugins"@,
        r@[1]@ == "/usr/local/lib/renovatio/plugins"@,
        exists|home: Seq<char>| r@[2]@ == #[trigger] (home + "/.local/lib/renovatio/plugins"@),
{
    let dirs = plugin_dirs();
    proof {
        reveal_strlit("/usr/lib/renovatio/plugins");
        reveal_strlit("/usr/local/lib/renovatio/plugins");
        reveal_strlit("~/.local/lib/renovatio/plugins");
        reveal_strlit("/.local/lib/renovatio/plugins");
    }
    let mut out: Vec<String> = Vec::new();
    out.push(expand_tilde(dirs[0].as_str()));
    out.push(expand_tilde(dirs[1].as_str()));
    let home_dir = expand_tilde(dirs[2].as_str());
    proof {
        assert("~/.local/lib/renovatio/plugins"@.skip(1) =~= "/.local/lib/renovatio/plugins"@);
    }
    out.push(home_dir);
    out
}

/// Whether a file name names a plugin module: it carries the dynamic-module
/// suffix.
pub open spec fn spec_is_module_name(name: Seq<char>) -> bool {
    name.len() >= 3 && name.subrange(name.len() - 3, name.len() as int) == ".so"@
}

/// The "dir/name" paths of the module files among a directory's entries, in
/// directory order.
pub open spec fn spec_module_paths(dir: Seq<char>, entries: Seq<Seq<char>>) -> Seq<Seq<char>>
    decreases entries.len(),
{
    if entries.len() == 0 {
        Seq::empty()
    } else {
        let head: Seq<Seq<char>> = if spec_is_module_name(entries[0]) {
            seq![dir + "/"@ + entries[0]]
        } else {
            Seq::empty()
        };
        head + spec_module_paths(dir, entries.drop_first())
    }
}

proof fn lemma_module_paths_push(dir: Seq<char>, entries: Seq<Seq<char>>, x: Seq<char>)
    ensures
        spec_module_paths(dir, entries.push(x)) == spec_module_paths(dir, entries) + (
        if spec_is_module_name(x) {
            seq![dir + "/"@ + x]
        } else {
            Seq::<Seq<char>>::empty()
        }),
    decreases entries.len(),
{
    let tail = if spec_is_module_name(x) {
        seq![dir + "/"@ + x]
    } else {
        Seq::<Seq<char>>::empty()
    };
    if entries.len() == 0 {
        assert(entries.push(x).drop_first() =~= entries);
        assert(spec_module_paths(dir, entries.push(x)) =~= spec_module_paths(dir, entries) + tail);
    } else {
        assert(entries.push(x).drop_first() =~= entries.drop_first().push(x));
        lemma_module_paths_push(dir, entries.drop_first(), x);
        assert(spec_module_paths(dir, entries.push(x)) =~= spec_module_paths(dir, entries) + tail);
    }
}

/// The plugin module paths among a directory's entries: each file name with
/// the module suffix, joined to the directory as "dir/name".
pub fn module_paths(dir: &str, file_names: &Vec<String>) -> (r: Vec<String>)
    ensures
        r.deep_view() == spec_module_paths(dir@, file_names.deep_view()),
{
    let mut out: Vec<String> = Vec::new();
    let mut i: usize = 0;
    while i < file_names.len()
        invariant
            i <= file_names.len(),
            out.deep_view() == spec_module_paths(dir@, file_names.deep_view().take(i as int)),
        decreases file_names.len() - i,
    {
        let name = &file_names[i];
        proof {
            reveal_strlit(".so");
            assert(file_names.deep_view().take(i + 1) =~= file_names.deep_view().take(
                i as int,
            ).push(name@));
            lemma_module_paths_push(dir@, file_names.deep_view().take(i as int), name@);
        }
        let ghost pre = out.deep_view();
        if str_ends_with(name.as_str(), ".so") {
            let mut path = dir.to_owned();
            path.append("/");
            path.append(name.as_str());
            out.push(path);
            proof {
                assert(out.deep_view() =~= pre.push(dir@ + "/"@ + name@));
            }
        }
        proof {
            assert(out.deep_view() =~= spec_module_paths(
                dir@,
                file_names.deep_view().take(i + 1),
            ));
        }
        i = i + 1;
    }
    proof {
        assert(file_names.deep_view().take(file_names@.len() as int) =~= file_names.deep_view());
    }
    out
}

/// Whether some registry entry already carries this name.
pub open spec fn spec_has_name(rs: Seq<PluginMetadata>, name: Seq<char>) -> bool {
    exists|i: int| 0 <= i < rs.len() && (#[trigger] rs[i]).name@ == name
}

/// All registry names are distinct.
pub open spec fn spec_unique_names(rs: Seq<PluginMetadata>) -> bool {
    forall|i: int, j: int|
        0 <= i < j < rs.len() ==> (#[trigger] rs[i]).name@ != (#[trigger] rs[j]).name@
}

/// The index of the first registry entry with this name, or -1.
pub open spec fn spec_first_with_name(rs: Seq<PluginMetadata>, name: Seq<char>) -> int
    decreases rs.len(),
{
    if rs.len() == 0 {
        -1
    } else if rs[0].name@ == name {
        0
    } else {
        let r = spec_first_with_name(rs.drop_first(), name);
        if r < 0 {
            -1
        } else {
            r + 1
        }
    }
}

pub proof fn lemma_first_with_name_props(rs: Seq<PluginMetadata>, name: Seq<char>)
    ensures
        spec_first_with_name(rs, name) == -1 ==> !spec_has_name(rs, name),
        spec_first_with_name(rs, name) != -1 ==> {
            let f = spec_first_with_name(rs, name);
            &&& 0 <= f < rs.len()
            &&& rs[f].name@ == name
            &&& forall|k: int| 0 <= k < f ==> (#[trigger] rs[k]).name@ != name
        },
    decreases rs.len(),
{
    if rs.len() != 0 && rs[0].name@ != name {
        lemma_first_with_name_props(rs.drop_first(), name);
        if spec_first_with_name(rs, name) == -1 {
            assert forall|i: int| 0 <= i < rs.len() implies (#[trigger] rs[i]).name@ != name by {
                if i > 0 {
                    assert(rs.drop_first()[i - 1] == rs[i]);
                }
            }
        } else {
            let f = spec_first_with_name(rs, name);
            assert(rs.drop_first()[f - 1] == rs[f]);
            assert forall|k: int| 0 <= k < f implies (#[trigger] rs[k]).name@ != name by {
                if k > 0 {
                    assert(rs.drop_first()[k - 1] == rs[k]);
                }
            }
        }
    }
}

/// The index of the first registry entry with this name, if any.
pub fn find_by_name(registry: &Vec<PluginMetadata>, name: &str) -> (r: Option<usize>)
    ensures
        match r {
            Some(i) => i as int == spec_first_with_name(registry@, name@),
            None => !spec_has_name(registry@, name@),
        },
{
    let mut i: usize = 0;
    while i < registry.len()
        invariant
            i <= registry@.len(),
            forall|k: int| 0 <= k < i ==> (#[trigger] registry@[k]).name@ != name@,
        decreases registry@.len() - i,
    {
        if str_eq(registry[i].name.as_str(), name) {
            proof {
                lemma_first_with_name_props(registry@, name@);
            }
            return Some(i);
        }
        i = i + 1;
    }
    None
}

/// Add a discovered entry to the registry unless one with its name is
/// already there: the first discovered entry wins a name, so discovery
/// order is what decides, deterministically. Unique names stay unique.
pub fn register(registry: &mut Vec<PluginMetadata>, entry: PluginMetadata) -> (added: bool)
    ensures
        added == !spec_has_name(old(registry)@, entry.name@),
        added ==> final(registry)@ == old(registry)@.push(entry),
        !added ==> final(registry)@ == old(registry)@,
        spec_unique_names(old(registry)@) ==> spec_unique_names(final(registry)@),
{
    let existing = find_by_name(registry, entry.name.as_str());
    match existing {
        Some(_) => {
            proof {
                lemma_first_with_name_props(registry@, entry.name@);
            }
            false
        },
        None => {
            registry.push(entry);
            true
        },
    }
}

/// Resolve each enabled name to its registry entry, in the enabled order.
/// Succeeds exactly when every name is known; otherwise the run must not
/// start, and the first unknown name is reported.
pub fn resolve_enabled(registry: &Vec<PluginMetadata>, enabled: &Vec<String>) -> (r: Result<
    Vec<PluginMetadata>,
    String,
>)
    ensures
        match r {
            Ok(entries) => {
                &&& entries@.len() == enabled@.len()
                &&& forall|i: int|
                    0 <= i < enabled@.len() ==> spec_has_name(registry@, (#[trigger] enabled@[i])@)
                &&& forall|i: int|
                    0 <= i < enabled@.len() ==> (#[trigger] entries@[i]) == registry@[
                        spec_first_with_name(registry@, enabled@[i]@)]
            },
            Err(unknown) => exists|i: int|
                {
                    &&& 0 <= i < enabled@.len()
                    &&& unknown@ == (#[trigger] enabled@[i])@
                    &&& !spec_has_name(registry@, enabled@[i]@)
                    &&& forall|k: int|
                        0 <= k < i ==> spec_has_name(registry@, (#[trigger] enabled@[k])@)
                },
        },
{
    let mut entries: Vec<PluginMetadata> = Vec::new();
    let mut i: usize = 0;
    while i < enabled.len()
        invariant
            i <= enabled@.len(),
            entries@.len() == i,
            forall|k: int| 0 <= k < i ==> spec_has_name(registry@, (#[trigger] enabled@[k])@),
            forall|k: int|
                0 <= k < i ==> (#[trigger] entries@[k]) == registry@[spec_first_with_name(
                    registry@,
                    enabled@[k]@,
                )],
        decreases enabled@.len() - i,
    {
        let name = &enabled[i];
        match find_by_name(registry, name.as_str()) {
            Some(idx) => {
                proof {
                    lemma_first_with_name_props(registry@, name@);
                }
                entries.push(registry[idx].duplicate());
            },
            None => {
                return Err(name.clone());
            },
        }
        i = i + 1;
    }
    Ok(entries)
}

} // verus!
