//! Detection snapshot of installed server extensions.

use vstd::prelude::*;

verus! {

/// One installed server extension as reported by the catalog: its name (the
/// unique key within a snapshot), its version string, and whether it is
/// enabled for use by the collector.
pub struct ExtensionInfo {
    pub name: String,
    pub version: String,
    pub enabled: bool,
}

impl Clone for ExtensionInfo {
    fn clone(&self) -> (r: Self)
        ensures
            r == *self,
    {
        ExtensionInfo {
            name: self.name.clone(),
            version: self.version.clone(),
            enabled: self.enabled,
        }
    }
}

spec fn seq_has_name(s: Seq<ExtensionInfo>, k: Seq<char>) -> bool {
    exists|i: int| 0 <= i < s.len() && s[i].name@ == k
}

spec fn seq_index_of(s: Seq<ExtensionInfo>, k: Seq<char>) -> int {
    choose|i: int| 0 <= i < s.len() && s[i].name@ == k
}

spec fn seq_names_distinct(s: Seq<ExtensionInfo>) -> bool {
    forall|i: int, j: int| 0 <= i < j < s.len() ==> s[i].name@ != s[j].name@
}

spec fn map_of(s: Seq<ExtensionInfo>) -> Map<Seq<char>, ExtensionInfo> {
    Map::new(|k: Seq<char>| seq_has_name(s, k), |k: Seq<char>| s[seq_index_of(s, k)])
}

proof fn lemma_entry_in_map(s: Seq<ExtensionInfo>, i: int)
    requires
        seq_names_distinct(s),
        0 <= i < s.len(),
    ensures
        map_of(s).contains_key(s[i].name@),
        map_of(s)[s[i].name@] == s[i],
{
    let k = s[i].name@;
    assert(seq_has_name(s, k));
    let j = seq_index_of(s, k);
    assert(0 <= j < s.len() && s[j].name@ == k);
    assert(j == i);
}

proof fn lemma_name_absent(s: Seq<ExtensionInfo>, k: Seq<char>)
    requires
        forall|i: int| 0 <= i < s.len() ==> s[i].name@ != k,
    ensures
        !map_of(s).contains_key(k),
{
}

proof fn lemma_push_fresh(s: Seq<ExtensionInfo>, info: ExtensionInfo)
    requires
        seq_names_distinct(s),
        forall|i: int| 0 <= i < s.len() ==> s[i].name@ != info.name@,
    ensures
        seq_names_distinct(s.push(info)),
        map_of(s.push(info)) == map_of(s).insert(info.name@, info),
{
    let t = s.push(info);
    assert forall|a: int, b: int| 0 <= a < b < t.len() implies t[a].name@ != t[b].name@ by {
        if b < s.len() {
            assert(t[a] == s[a] && t[b] == s[b]);
        } else {
            assert(t[b] == info && t[a] == s[a]);
        }
    }
    assert forall|k: Seq<char>|
        #[trigger] map_of(t).contains_key(k) == map_of(s).insert(info.name@, info).contains_key(
            k,
        ) && (map_of(t).contains_key(k) ==> map_of(t)[k] == map_of(s).insert(info.name@, info)[k]) by {
        if k == info.name@ {
            assert(t[s.len() as int] == info);
            lemma_entry_in_map(t, s.len() as int);
        } else if seq_has_name(s, k) {
            let i = seq_index_of(s, k);
            assert(0 <= i < s.len() && s[i].name@ == k);
            lemma_entry_in_map(s, i);
            assert(t[i] == s[i]);
            lemma_entry_in_map(t, i);
        } else {
            assert(forall|i: int| 0 <= i < s.len() ==> s[i].name@ != k);
            assert forall|i: int| 0 <= i < t.len() implies t[i].name@ != k by {
                if i < s.len() {
                    assert(t[i] == s[i]);
                } else {
                    assert(t[i] == info);
                }
            }
            lemma_name_absent(t, k);
            lemma_name_absent(s, k);
        }
    }
    assert(map_of(t) =~= map_of(s).insert(info.name@, info));
}

proof fn lemma_remove_name(s: Seq<ExtensionInfo>, r: int)
    requires
        seq_names_distinct(s),
        0 <= r < s.len(),
    ensures
        seq_names_distinct(s.remove(r)),
        forall|i: int| 0 <= i < s.remove(r).len() ==> s.remove(r)[i].name@ != s[r].name@,
        map_of(s.remove(r)) == map_of(s).remove(s[r].name@),
{
    let k = s[r].name@;
    let t = s.remove(r);
    s.remove_ensures(r);
    assert forall|i: int| 0 <= i < t.len() implies t[i].name@ != k by {
        if i < r {
            assert(t[i] == s[i]);
        } else {
            assert(t[i] == s[i + 1]);
        }
    }
    assert forall|a: int, b: int| 0 <= a < b < t.len() implies t[a].name@ != t[b].name@ by {
        let a2: int = if a < r { a } else { a + 1 };
        let b2: int = if b < r { b } else { b + 1 };
        assert(t[a] == s[a2] && t[b] == s[b2]);
        assert(a2 < b2);
    }
    assert forall|k2: Seq<char>|
        #[trigger] map_of(t).contains_key(k2) == map_of(s).remove(k).contains_key(k2) && (map_of(
            t,
        ).contains_key(k2) ==> map_of(t)[k2] == map_of(s).remove(k)[k2]) by {
        if k2 == k {
            lemma_name_absent(t, k);
        } else if seq_has_name(s, k2) {
            let i = seq_index_of(s, k2);
            assert(0 <= i < s.len() && s[i].name@ == k2);
            lemma_entry_in_map(s, i);
            assert(i != r);
            let i2: int = if i < r { i } else { i - 1 };
            assert(t[i2] == s[i]);
            lemma_entry_in_map(t, i2);
        } else {
            assert forall|i: int| 0 <= i < t.len() implies t[i].name@ != k2 by {
                if i < r {
                    assert(t[i] == s[i]);
                } else {
                    assert(t[i] == s[i + 1]);
                }
            }
            lemma_name_absent(t, k2);
            lemma_name_absent(s, k2);
        }
    }
    assert(map_of(t) =~= map_of(s).remove(k));
}

/// The set of extensions found by one detection pass, keyed by name.
///
/// Abstractly a map from extension name to `ExtensionInfo`; held as a
/// vector whose entries carry pairwise-distinct names.
pub struct ExtensionSnapshot {
    entries: Vec<ExtensionInfo>,
}

impl View for ExtensionSnapshot {
    type V = Map<Seq<char>, ExtensionInfo>;

    closed spec fn view(&self) -> Map<Seq<char>, ExtensionInfo> {
        map_of(self.entries@)
    }
}

impl ExtensionSnapshot {
    /// Entry names are pairwise distinct, so the snapshot is a map.
    pub closed spec fn wf(self) -> bool {
        seq_names_distinct(self.entries@)
    }

    pub fn new() -> (s: Self)
        ensures
            s.wf(),
            s@ == Map::<Seq<char>, ExtensionInfo>::empty(),
    {
        let s = ExtensionSnapshot { entries: Vec::new() };
        proof {
            assert(s@ =~= Map::<Seq<char>, ExtensionInfo>::empty());
        }
        s
    }

    fn find_index(&self, name: &str) -> (r: Option<usize>)
        ensures
            match r {
                Some(i) => i < self.entries@.len() && self.entries@[i as int].name@ == name@,
                None => forall|i: int|
                    0 <= i < self.entries@.len() ==> self.entries@[i].name@ != name@,
            },
    {
        let key: String = name.to_owned();
        let mut i: usize = 0;
        while i < self.entries.len()
            invariant
                key@ == name@,
                i <= self.entries@.len(),
                forall|j: int| 0 <= j < i ==> self.entries@[j].name@ != name@,
            decreases self.entries@.len() - i,
        {
            if self.entries[i].name == key {
                return Some(i);
            }
            i += 1;
        }
        None
    }

    /// Looks the extension up by name.
    pub fn get(&self, name: &str) -> (r: Option<&ExtensionInfo>)
        requires
            self.wf(),
        ensures
            (match r {
                Some(e) => self@.contains_key(name@) && *e == self@[name@],
                None => !self@.contains_key(name@),
            }),
    {
        match self.find_index(name) {
            Some(i) => {
                proof {
                    lemma_entry_in_map(self.entries@, i as int);
                }
                Some(&self.entries[i])
            },
            None => {
                proof {
                    lemma_name_absent(self.entries@, name@);
                }
                None
            },
        }
    }

    /// Adds the extension to the snapshot, replacing any entry of the same
    /// name, as a map insertion does.
    pub fn insert(&mut self, info: ExtensionInfo)
        requires
            old(self).wf(),
        ensures
            final(self).wf(),
            final(self)@ == old(self)@.insert(info.name@, info),
    {
        let ghost pre = old(self).entries@;
        match self.find_index(info.name.as_str()) {
            Some(r) => {
                self.entries.remove(r);
                self.entries.push(info);
                proof {
                    lemma_remove_name(pre, r as int);
                    lemma_push_fresh(pre.remove(r as int), info);
                    assert(map_of(self.entries@) == map_of(pre).remove(info.name@).insert(
                        info.name@,
                        info,
                    ));
                    assert(map_of(pre).remove(info.name@).insert(info.name@, info) =~= map_of(
                        pre,
                    ).insert(info.name@, info));
                }
            },
            None => {
                self.entries.push(info);
                proof {
                    lemma_push_fresh(pre, info);
                }
            },
        }
    }

    /// Builds the snapshot a detection pass yields from the raw
    /// `(name, version)` catalog rows, marking every extension enabled.
    /// A later row with the same name replaces an earlier one.
    pub fn from_rows(rows: &Vec<(String, String)>) -> (s: Self)
        ensures
            s.wf(),
            s@ == snapshot_of_rows(rows@),
    {
        let mut s = ExtensionSnapshot::new();
        let mut i: usize = 0;
        while i < rows.len()
            invariant
                s.wf(),
                i <= rows@.len(),
                s@ == snapshot_of_rows(rows@.take(i as int)),
            decreases rows@.len() - i,
        {
            let info = ExtensionInfo {
                name: rows[i].0.clone(),
                version: rows[i].1.clone(),
                enabled: true,
            };
            let ghost prev = s@;
            let ghost spec_info = info;
            s.insert(info);
            proof {
                assert(rows@.take(i as int + 1).drop_last() =~= rows@.take(i as int));
                assert(rows@.take(i as int + 1).last() == rows@[i as int]);
                assert(spec_info == row_info(rows@[i as int]));
                assert(s@ == snapshot_of_rows(rows@.take(i as int + 1)));
            }
            i += 1;
        }
        proof {
            assert(rows@.take(rows@.len() as int) =~= rows@);
        }
        s
    }
}

/// The `ExtensionInfo` a catalog row stands for: presence implies
/// `enabled`, not necessarily active use.
pub open spec fn row_info(row: (String, String)) -> ExtensionInfo {
    ExtensionInfo { name: row.0, version: row.1, enabled: true }
}

/// The extension map a sequence of catalog rows builds, later rows
/// replacing earlier ones of the same name.
pub open spec fn snapshot_of_rows(rows: Seq<(String, String)>) -> Map<Seq<char>, ExtensionInfo>
    decreases rows.len(),
{
    if rows.len() == 0 {
        Map::empty()
    } else {
        snapshot_of_rows(rows.drop_last()).insert(rows.last().0@, row_info(rows.last()))
    }
}

/// The extension is present in the map and marked enabled.
pub open spec fn extension_enabled(m: Map<Seq<char>, ExtensionInfo>, name: Seq<char>) -> bool {
    m.contains_key(name) && m[name].enabled
}

} // verus!
