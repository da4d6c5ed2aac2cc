//! The content of files, kept for the length of one aggregation so that no
//! file is asked of the backend twice.

use vstd::prelude::*;
use crate::json::{duplicates, jsons_of, Json};
use crate::text::same_text;

verus! {

/// File content by path. The content is held as the backend sent it: a
/// sequence of JSON numbers, one for each byte.
pub struct FileContentCache {
    entries: Vec<(String, Vec<serde_json::Value>)>,
}

/// The mapping that a list of entries stands for. A later entry for a path
/// stands in front of an earlier one.
pub open spec fn entries_map(entries: Seq<(String, Vec<serde_json::Value>)>) -> Map<
    Seq<char>,
    Seq<Json>,
>
    decreases entries.len(),
{
    if entries.len() == 0 {
        Map::empty()
    } else {
        entries_map(entries.drop_last()).insert(
            entries.last().0@,
            jsons_of(entries.last().1@),
        )
    }
}

/// The entry at `at` is what the mapping holds for its path where no later
/// entry has that path, and a path that no entry from `from` on has is
/// absent if no earlier entry has it either.
proof fn lemma_entries_map(entries: Seq<(String, Vec<serde_json::Value>)>, path: Seq<char>, at: int)
    requires
        -1 <= at < entries.len(),
        forall|k: int| at < k < entries.len() ==> entries[k].0@ != path,
        at >= 0 ==> entries[at].0@ == path,
    ensures
        at >= 0 ==> entries_map(entries).contains_key(path) && entries_map(entries)[path]
            == jsons_of(entries[at].1@),
        at < 0 ==> !entries_map(entries).contains_key(path),
    decreases entries.len(),
{
    if entries.len() > 0 {
        if at < entries.len() - 1 {
            lemma_entries_map(entries.drop_last(), path, at);
        }
    }
}

impl View for FileContentCache {
    type V = Map<Seq<char>, Seq<Json>>;

    closed spec fn view(&self) -> Map<Seq<char>, Seq<Json>> {
        entries_map(self.entries@)
    }
}

impl FileContentCache {
    /// A cache that holds nothing.
    pub fn new() -> (r: FileContentCache)
        ensures
            r@ == Map::<Seq<char>, Seq<Json>>::empty(),
    {
        FileContentCache { entries: Vec::new() }
    }

    /// A copy of the content held for `path`.
    pub fn get(&self, path: &str) -> (r: Option<Vec<serde_json::Value>>)
        ensures
            match r {
                Some(content) => self@.contains_key(path@) && jsons_of(content@) == self@[path@],
                None => !self@.contains_key(path@),
            },
    {
        let mut i: usize = self.entries.len();
        while i > 0
            invariant
                i <= self.entries.len(),
                forall|k: int| i <= k < self.entries@.len() ==> self.entries@[k].0@ != path@,
            decreases i,
        {
            i = i - 1;
            if same_text(self.entries[i].0.as_str(), path) {
                proof {
                    lemma_entries_map(self.entries@, path@, i as int);
                }
                return Some(duplicates(&self.entries[i].1));
            }
        }
        proof {
            lemma_entries_map(self.entries@, path@, -1);
        }
        None
    }

    /// Whether content is held for `path`.
    pub fn contains(&self, path: &str) -> (r: bool)
        ensures
            r == self@.contains_key(path@),
    {
        let mut i: usize = self.entries.len();
        while i > 0
            invariant
                i <= self.entries.len(),
                forall|k: int| i <= k < self.entries@.len() ==> self.entries@[k].0@ != path@,
            decreases i,
        {
            i = i - 1;
            if same_text(self.entries[i].0.as_str(), path) {
                proof {
                    lemma_entries_map(self.entries@, path@, i as int);
                }
                return true;
            }
        }
        proof {
            lemma_entries_map(self.entries@, path@, -1);
        }
        false
    }

    /// Holds `content` for `path` from now on, in place of what was held
    /// for it before.
    pub fn insert(&mut self, path: String, content: Vec<serde_json::Value>)
        ensures
            final(self)@ == old(self)@.insert(path@, jsons_of(content@)),
    {
        let ghost before = self.entries@;
        self.entries.push((path, content));
        assert(self.entries@.drop_last() =~= before);
    }
}

} // verus!
