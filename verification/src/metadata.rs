//! Discovery of a package's metadata files in the administrative
//! database's `info` directory.
//!
//! A directory entry belongs to a package iff its file name is the
//! package id, a literal dot, and at least one further character; the
//! part after the dot becomes the in-archive name. The `list` suffix is
//! always excluded: that file holds the raw installed-file listing, not
//! package metadata.

use vstd::prelude::*;

verus! {

/// The suffix that marks a package's installed-file listing; never
/// collected as metadata.
pub open spec fn list_suffix() -> Seq<char> {
    seq!['l', 'i', 's', 't']
}

/// Whether a directory entry name qualifies as belonging to the package:
/// the exact id, a literal dot, and at least one further character.
pub open spec fn qualifies(id: Seq<char>, name: Seq<char>) -> bool {
    &&& name.len() > id.len() + 1
    &&& name.subrange(0, id.len() as int) == id
    &&& name[id.len() as int] == '.'
}

/// The in-archive name of a qualifying entry: everything after the dot
/// that follows the id.
pub open spec fn suffix_of(id: Seq<char>, name: Seq<char>) -> Seq<char> {
    name.subrange(id.len() + 1 as int, name.len() as int)
}

/// Whether a directory entry is collected as package metadata: it
/// qualifies and its suffix is not the installed-file listing suffix.
pub open spec fn is_selected(id: Seq<char>, name: Seq<char>) -> bool {
    qualifies(id, name) && suffix_of(id, name) != list_suffix()
}

/// The entries chosen from a directory listing, in listing order: each
/// selected entry name paired with its in-archive name.
pub open spec fn chosen(id: Seq<char>, names: Seq<Seq<char>>) -> Seq<(Seq<char>, Seq<char>)>
    decreases names.len(),
{
    if names.len() == 0 {
        Seq::empty()
    } else {
        let rest = chosen(id, names.drop_last());
        if is_selected(id, names.last()) {
            rest.push((names.last(), suffix_of(id, names.last())))
        } else {
            rest
        }
    }
}

/// Decides whether one directory entry belongs to the package's
/// metadata, and under which in-archive name it is collected.
pub fn metadata_entry_name(id: &str, file_name: &str) -> (r: Option<String>)
    ensures
        match r {
            Some(s) => is_selected(id@, file_name@) && s@ == suffix_of(id@, file_name@),
            None => !is_selected(id@, file_name@),
        },
{
    let id_len = id.unicode_len();
    let name_len = file_name.unicode_len();
    // Reject every name without room for the id, the dot and a suffix.
    if name_len < 2 || id_len > name_len - 2 {
        return None;
    }
    let mut i: usize = 0;
    while i < id_len
        invariant
            i <= id_len,
            id_len == id@.len(),
            name_len == file_name@.len(),
            name_len >= id_len + 2,
            forall|j: int| 0 <= j < i ==> file_name@[j] == id@[j],
        decreases id_len - i,
    {
        if file_name.get_char(i) != id.get_char(i) {
            proof {
                assert(file_name@.subrange(0, id@.len() as int)[i as int] == file_name@[i as int]);
            }
            return None;
        }
        i += 1;
    }
    if file_name.get_char(id_len) != '.' {
        return None;
    }
    proof {
        assert(file_name@.subrange(0, id@.len() as int) =~= id@);
    }
    let suffix = file_name.substring_char(id_len + 1, name_len);
    let owned = String::from_str(suffix);
    let listing = String::from_str("list");
    proof {
        reveal_strlit("list");
        assert(listing@ =~= list_suffix());
    }
    if owned == listing {
        return None;
    }
    Some(owned)
}

/// Selects the package's metadata entries from a directory listing: each
/// returned pair is a selected entry's file name and its in-archive name,
/// in listing order.
pub fn select_metadata(id: &str, entries: &Vec<String>) -> (r: Vec<(String, String)>)
    ensures
        r.deep_view() == chosen(id@, entries.deep_view()),
{
    let mut r: Vec<(String, String)> = Vec::new();
    let mut k: usize = 0;
    proof {
        assert(r.deep_view() =~= chosen(id@, entries.deep_view().subrange(0, 0)));
    }
    while k < entries.len()
        invariant
            k <= entries.len(),
            entries.deep_view().len() == entries.len(),
            r.deep_view() == chosen(id@, entries.deep_view().subrange(0, k as int)),
        decreases entries.len() - k,
    {
        let ghost pre = entries.deep_view().subrange(0, k as int);
        let ghost cur = entries.deep_view().subrange(0, k + 1 as int);
        proof {
            assert(cur.drop_last() =~= pre);
            assert(cur.last() == entries.deep_view()[k as int]);
        }
        match metadata_entry_name(id, entries[k].as_str()) {
            Some(name) => {
                let entry = entries[k].clone();
                r.push((entry, name));
                proof {
                    assert(r.deep_view() =~= chosen(id@, cur));
                }
            },
            None => {
                proof {
                    assert(r.deep_view() =~= chosen(id@, cur));
                }
            },
        }
        k += 1;
    }
    proof {
        assert(entries.deep_view().subrange(0, entries.len() as int) =~= entries.deep_view());
    }
    r
}

/// The metadata set included for a package is exact: a file name appears
/// among the chosen entries iff it stands in the directory listing and is
/// selected — the exact id followed by a dot and a suffix other than the
/// listing suffix. Entries of other package ids, even ones sharing the id
/// as a bare prefix, are never chosen.
pub proof fn lemma_chosen_exact(id: Seq<char>, names: Seq<Seq<char>>, name: Seq<char>)
    ensures
        (exists|j: int|
            0 <= j < chosen(id, names).len() && chosen(id, names)[j].0 == name) <==> (
        names.contains(name) && is_selected(id, name)),
    decreases names.len(),
{
    if names.len() == 0 {
    } else {
        lemma_chosen_exact(id, names.drop_last(), name);
        let sub = names.drop_last();
        let rest = chosen(id, sub);
        assert(forall|j: int| 0 <= j < sub.len() ==> sub[j] == names[j]);
        if exists|j: int| 0 <= j < rest.len() && rest[j].0 == name {
            assert(names.contains(name) && is_selected(id, name)) by {
                let j = choose|j: int| 0 <= j < sub.len() && sub[j] == name;
                assert(names[j] == name);
            }
            assert(chosen(id, names)[choose|j: int|
                0 <= j < rest.len() && rest[j].0 == name].0 == name);
        } else if is_selected(id, names.last()) && names.last() == name {
            assert(names.contains(name)) by {
                assert(names[names.len() - 1] == name);
            }
            assert(chosen(id, names)[chosen(id, names).len() - 1].0 == name);
        } else {
            if names.contains(name) && is_selected(id, name) {
                let j = choose|j: int| 0 <= j < names.len() && names[j] == name;
                assert(j < sub.len() || names.last() == name);
                if j < sub.len() {
                    assert(sub[j] == name);
                    assert(sub.contains(name));
                }
            }
            if exists|j: int| 0 <= j < chosen(id, names).len() && chosen(id, names)[j].0 == name {
                let j = choose|j: int|
                    0 <= j < chosen(id, names).len() && chosen(id, names)[j].0 == name;
                assert(rest[j].0 == name);
            }
        }
    }
}

/// Every chosen entry carries its own suffix as its in-archive name.
pub proof fn lemma_chosen_names(id: Seq<char>, names: Seq<Seq<char>>)
    ensures
        forall|j: int|
            0 <= j < chosen(id, names).len() ==> (is_selected(id, #[trigger] chosen(id, names)[j].0)
                && chosen(id, names)[j].1 == suffix_of(id, chosen(id, names)[j].0)),
    decreases names.len(),
{
    if names.len() > 0 {
        lemma_chosen_names(id, names.drop_last());
        let rest = chosen(id, names.drop_last());
        if is_selected(id, names.last()) {
            assert(chosen(id, names) == rest.push((names.last(), suffix_of(id, names.last()))));
            assert(forall|j: int|
                0 <= j < rest.len() ==> chosen(id, names)[j] == #[trigger] rest[j]);
            assert(chosen(id, names)[chosen(id, names).len() - 1] == (
            names.last(),
            suffix_of(id, names.last()),
            ));
        }
    }
}

} // verus!
