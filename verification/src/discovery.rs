//! Picking the schema files out of what a walk over the source paths found.
//! The walk itself is the caller's; it hands over every entry it could
//! read, in the order in which it came.

use vstd::prelude::*;
use vstd::string::*;
use crate::paths::{extension_of, lemma_texts_add, lemma_texts_push, path_extension, texts};

verus! {

/// Whether `path` names a schema file: its extension is `proto`.
pub open spec fn is_schema_path(path: Seq<char>) -> bool {
    extension_of(path) == Some("proto"@)
}

/// `is_schema_path` as a predicate to filter by.
pub open spec fn schema_paths() -> spec_fn(Seq<char>) -> bool {
    |path: Seq<char>| is_schema_path(path)
}

/// The contents of several walks, walk by walk.
pub open spec fn walk_texts(walks: Seq<Vec<String>>) -> Seq<Seq<Seq<char>>> {
    walks.map_values(|walk: Vec<String>| texts(walk@))
}

/// The schema files of several walks: those of the first walk in their
/// order, then those of the second, and so on. Nothing is dropped for
/// turning up twice.
pub open spec fn discovered(walks: Seq<Seq<Seq<char>>>) -> Seq<Seq<char>>
    decreases walks.len(),
{
    if walks.len() == 0 {
        Seq::empty()
    } else {
        discovered(walks.drop_last()) + walks.last().filter(schema_paths())
    }
}

/// Says whether `ext`, the extension of some path, is that of a schema
/// file: there is one, and it is `proto`.
pub fn is_schema_extension(ext: Option<&str>) -> (schema: bool)
    ensures
        schema == (ext is Some && ext.unwrap()@ == "proto"@),
{
    match ext {
        Some(ext) => {
            let found = String::from_str(ext);
            let wanted = String::from_str("proto");
            found.eq(&wanted)
        },
        None => false,
    }
}

/// Says whether the entry at `path` is a schema file.
pub fn is_schema_file(path: &str) -> (schema: bool)
    ensures
        schema == is_schema_path(path@),
{
    let ext = path_extension(path);
    let found = match &ext {
        Some(text) => Some(text.as_str()),
        None => None,
    };
    is_schema_extension(found)
}

/// The schema files among the entries of one walk, in the walk's order.
pub fn schema_files_in(entries: &Vec<String>) -> (files: Vec<String>)
    ensures
        texts(files@) == texts(entries@).filter(schema_paths()),
{
    let mut files: Vec<String> = Vec::new();
    let n = entries.len();
    let mut i: usize = 0;
    proof {
        reveal(Seq::filter);
        assert(texts(entries@).take(0).filter(schema_paths()) =~= texts(files@));
    }
    while i < n
        invariant
            n == entries.len(),
            i <= n,
            texts(files@) == texts(entries@).take(i as int).filter(schema_paths()),
        decreases n - i,
    {
        let keep = is_schema_file(entries[i].as_str());
        proof {
            reveal(Seq::filter);
            let longer = texts(entries@).take(i + 1);
            assert(longer.drop_last() =~= texts(entries@).take(i as int));
            assert(longer.last() == entries@[i as int]@);
            assert(schema_paths()(longer.last()) == keep);
        }
        if keep {
            let entry = entries[i].clone();
            proof {
                lemma_texts_push(files@, entry);
            }
            files.push(entry);
        }
        i += 1;
    }
    proof {
        assert(texts(entries@).take(n as int) =~= texts(entries@));
    }
    files
}

/// The schema files of all walks, one walk per configured source, in the
/// sources' order.
pub fn schema_files(walks: &Vec<Vec<String>>) -> (files: Vec<String>)
    ensures
        texts(files@) == discovered(walk_texts(walks@)),
{
    let mut files: Vec<String> = Vec::new();
    let n = walks.len();
    let mut i: usize = 0;
    proof {
        assert(texts(files@) =~= discovered(walk_texts(walks@).take(0)));
    }
    while i < n
        invariant
            n == walks.len(),
            i <= n,
            texts(files@) == discovered(walk_texts(walks@).take(i as int)),
        decreases n - i,
    {
        let mut found = schema_files_in(&walks[i]);
        proof {
            let longer = walk_texts(walks@).take(i + 1);
            assert(longer.drop_last() =~= walk_texts(walks@).take(i as int));
            assert(longer.last() == texts(walks@[i as int]@));
            lemma_texts_add(files@, found@);
        }
        files.append(&mut found);
        i += 1;
    }
    proof {
        assert(walk_texts(walks@).take(n as int) =~= walk_texts(walks@));
    }
    files
}

/// Every discovered file is a schema file.
pub proof fn law_only_schema_files_are_discovered(walks: Seq<Seq<Seq<char>>>, i: int)
    requires
        0 <= i < discovered(walks).len(),
    ensures
        is_schema_path(discovered(walks)[i]),
    decreases walks.len(),
{
    if walks.len() > 0 {
        let earlier = discovered(walks.drop_last());
        if i < earlier.len() {
            law_only_schema_files_are_discovered(walks.drop_last(), i);
        } else {
            walks.last().lemma_filter_pred(schema_paths(), i - earlier.len());
        }
    }
}

} // verus!
