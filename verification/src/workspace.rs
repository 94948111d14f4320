use vstd::prelude::*;

verus! {

/// The mapping that a sequence of (file name, source text) entries
/// denotes; a later entry with the same name wins.
pub open spec fn files_map(s: Seq<(String, String)>) -> Map<Seq<char>, Seq<char>>
    decreases s.len(),
{
    if s.len() == 0 {
        Map::empty()
    } else {
        files_map(s.drop_last()).insert(s.last().0@, s.last().1@)
    }
}

/// Whether some entry of `s` carries the file name `k`.
pub open spec fn has_key(s: Seq<(String, String)>, k: Seq<char>) -> bool {
    exists|i: int| 0 <= i < s.len() && (#[trigger] s[i].0@) == k
}

/// Whether the entries of `s` carry pairwise distinct file names.
pub open spec fn keys_distinct(s: Seq<(String, String)>) -> bool {
    forall|i: int, j: int| 0 <= i < j < s.len() ==> s[i].0@ != s[j].0@
}

/// The in-memory store of the source fragments making up one compilable
/// program: a mapping from file name (including its extension) to source
/// text. It validates nothing about the text; that is the compiler's job.
pub struct Workspace {
    files: Vec<(String, String)>,
}

impl View for Workspace {
    type V = Map<Seq<char>, Seq<char>>;

    closed spec fn view(&self) -> Map<Seq<char>, Seq<char>> {
        files_map(self.files@)
    }
}

proof fn lemma_files_map_has_key(s: Seq<(String, String)>, k: Seq<char>)
    ensures
        files_map(s).contains_key(k) <==> has_key(s, k),
    decreases s.len(),
{
    if s.len() == 0 {
    } else {
        lemma_files_map_has_key(s.drop_last(), k);
        if s.last().0@ == k {
            assert(s[s.len() - 1].0@ == k);
            assert(has_key(s, k));
        } else {
            if has_key(s, k) {
                let i = choose|i: int| 0 <= i < s.len() && (#[trigger] s[i].0@) == k;
                assert(i < s.len() - 1);
                assert(s.drop_last()[i].0@ == k);
                assert(has_key(s.drop_last(), k));
            }
            if has_key(s.drop_last(), k) {
                let i = choose|i: int|
                    0 <= i < s.drop_last().len() && (#[trigger] s.drop_last()[i].0@) == k;
                assert(s[i].0@ == k);
                assert(has_key(s, k));
            }
        }
    }
}

proof fn lemma_distinct_drop_last(s: Seq<(String, String)>)
    requires
        s.len() > 0,
        keys_distinct(s),
    ensures
        keys_distinct(s.drop_last()),
{
    assert forall|i: int, j: int|
        0 <= i < j < s.drop_last().len() implies s.drop_last()[i].0@ != s.drop_last()[j].0@ by {
        assert(s.drop_last()[i] == s[i]);
        assert(s.drop_last()[j] == s[j]);
    }
}

proof fn lemma_files_map_value(s: Seq<(String, String)>, i: int)
    requires
        keys_distinct(s),
        0 <= i < s.len(),
    ensures
        files_map(s).contains_key(s[i].0@),
        files_map(s)[s[i].0@] == s[i].1@,
    decreases s.len(),
{
    if i == s.len() - 1 {
        assert(s.last() == s[i]);
    } else {
        lemma_distinct_drop_last(s);
        lemma_files_map_value(s.drop_last(), i);
        assert(s.drop_last()[i] == s[i]);
        assert(s.last().0@ != s[i].0@);
    }
}

/// Appending an entry inserts its binding into the denoted map.
proof fn lemma_files_map_push(s: Seq<(String, String)>, p: (String, String))
    ensures
        files_map(s.push(p)) == files_map(s).insert(p.0@, p.1@),
{
    assert(s.push(p).drop_last() =~= s);
    assert(s.push(p).last() == p);
}

/// Removing the (unique) entry that carries key `k` removes `k` from the
/// denoted map.
proof fn lemma_files_map_remove(s: Seq<(String, String)>, i: int)
    requires
        keys_distinct(s),
        0 <= i < s.len(),
    ensures
        files_map(s.remove(i)) == files_map(s).remove(s[i].0@),
    decreases s.len(),
{
    let k = s[i].0@;
    if i == s.len() - 1 {
        assert(s.remove(i) =~= s.drop_last());
        lemma_distinct_drop_last(s);
        lemma_files_map_has_key(s.drop_last(), k);
        assert(!has_key(s.drop_last(), k)) by {
            if has_key(s.drop_last(), k) {
                let j = choose|j: int|
                    0 <= j < s.drop_last().len() && (#[trigger] s.drop_last()[j].0@) == k;
                assert(s[j].0@ == s[i].0@);
            }
        }
        assert(files_map(s).remove(k) =~= files_map(s.drop_last()));
    } else {
        let t = s.remove(i);
        lemma_distinct_drop_last(s);
        lemma_files_map_remove(s.drop_last(), i);
        assert(t.drop_last() =~= s.drop_last().remove(i));
        assert(t.last() == s.last());
        assert(s.last().0@ != k);
        assert(files_map(t) == files_map(s.drop_last().remove(i)).insert(
            s.last().0@,
            s.last().1@,
        ));
        assert(files_map(s).remove(k) =~= files_map(s.drop_last()).remove(k).insert(
            s.last().0@,
            s.last().1@,
        ));
    }
}

proof fn lemma_distinct_remove(s: Seq<(String, String)>, i: int)
    requires
        keys_distinct(s),
        0 <= i < s.len(),
    ensures
        keys_distinct(s.remove(i)),
        !has_key(s.remove(i), s[i].0@),
{
    let t = s.remove(i);
    assert forall|a: int, b: int| 0 <= a < b < t.len() implies t[a].0@ != t[b].0@ by {
        let a0: int = if a < i { a } else { a + 1 };
        let b0: int = if b < i { b } else { b + 1 };
        assert(t[a] == s[a0]);
        assert(t[b] == s[b0]);
    }
    assert(!has_key(t, s[i].0@)) by {
        if has_key(t, s[i].0@) {
            let j = choose|j: int| 0 <= j < t.len() && (#[trigger] t[j].0@) == s[i].0@;
            let j0: int = if j < i { j } else { j + 1 };
            assert(t[j] == s[j0]);
        }
    }
}

impl Workspace {
    /// Well-formedness: no file name occurs twice in the backing store.
    pub closed spec fn wf(&self) -> bool {
        keys_distinct(self.files@)
    }

    /// A workspace holding no files.
    pub fn empty() -> (r: Workspace)
        ensures
            r.wf(),
            r@ == Map::<Seq<char>, Seq<char>>::empty(),
    {
        Workspace { files: Vec::new() }
    }

    /// The position of the entry named `name`, if any.
    fn find_index(&self, name: &String) -> (r: Option<usize>)
        ensures
            r matches Some(i) ==> i < self.files@.len() && self.files@[i as int].0@ == name@,
            r is None ==> !has_key(self.files@, name@),
    {
        let n = self.files.len();
        let mut i: usize = 0;
        while i < n
            invariant
                n == self.files@.len(),
                i <= n,
                forall|j: int| 0 <= j < i ==> (#[trigger] self.files@[j].0@) != name@,
            decreases n - i,
        {
            if self.files[i].0 == *name {
                return Some(i);
            }
            i += 1;
        }
        proof {
            if has_key(self.files@, name@) {
                let j = choose|j: int|
                    0 <= j < self.files@.len() && (#[trigger] self.files@[j].0@) == name@;
            }
        }
        None
    }

    /// Whether the store holds a file of this name.
    pub fn contains(&self, name: &String) -> (r: bool)
        ensures
            r == self@.contains_key(name@),
    {
        proof {
            lemma_files_map_has_key(self.files@, name@);
        }
        match self.find_index(name) {
            Some(i) => {
                proof {
                    assert(has_key(self.files@, name@));
                }
                true
            },
            None => false,
        }
    }

    /// The source text stored under `name`, or nothing if no file of that
    /// name exists.
    pub fn get(&self, name: &String) -> (r: Option<String>)
        requires
            self.wf(),
        ensures
            r is Some <==> self@.contains_key(name@),
            r matches Some(t) ==> t@ == self@[name@],
    {
        proof {
            lemma_files_map_has_key(self.files@, name@);
        }
        match self.find_index(name) {
            Some(i) => {
                proof {
                    lemma_files_map_value(self.files@, i as int);
                    assert(has_key(self.files@, name@));
                }
                Some(self.files[i].1.clone())
            },
            None => None,
        }
    }

    /// Store `text` under `name`, replacing any previous text of that
    /// file: the one mutation the pipeline performs, committing the
    /// editor's buffer before a run.
    pub fn set(&mut self, name: &String, text: String)
        requires
            old(self).wf(),
        ensures
            final(self).wf(),
            final(self)@ == old(self)@.insert(name@, text@),
    {
        let ghost s0 = self.files@;
        match self.find_index(name) {
            Some(i) => {
                proof {
                    lemma_files_map_remove(s0, i as int);
                    lemma_distinct_remove(s0, i as int);
                }
                self.files.remove(i);
                let ghost s1 = self.files@;
                self.files.push((name.clone(), text));
                proof {
                    lemma_files_map_push(s1, self.files@.last());
                    assert(self.files@.last().0@ == name@);
                    assert(files_map(self.files@) =~= files_map(s0).insert(name@, text@));
                    assert(keys_distinct(self.files@)) by {
                        assert forall|a: int, b: int|
                            0 <= a < b < self.files@.len() implies self.files@[a].0@
                            != self.files@[b].0@ by {
                            if b < self.files@.len() - 1 {
                                assert(self.files@[a] == s1[a]);
                                assert(self.files@[b] == s1[b]);
                            } else {
                                assert(self.files@[a] == s1[a]);
                                assert(has_key(s1, self.files@[a].0@)) by {
                                    assert(s1[a].0@ == self.files@[a].0@);
                                }
                            }
                        }
                    }
                }
            },
            None => {
                self.files.push((name.clone(), text));
                proof {
                    lemma_files_map_push(s0, self.files@.last());
                    assert(self.files@.last().0@ == name@);
                    assert(files_map(self.files@) =~= files_map(s0).insert(name@, text@));
                    assert(keys_distinct(self.files@)) by {
                        assert forall|a: int, b: int|
                            0 <= a < b < self.files@.len() implies self.files@[a].0@
                            != self.files@[b].0@ by {
                            if b < self.files@.len() - 1 {
                                assert(self.files@[a] == s0[a]);
                                assert(self.files@[b] == s0[b]);
                            } else {
                                assert(self.files@[a] == s0[a]);
                                assert(has_key(s0, self.files@[a].0@)) by {
                                    assert(s0[a].0@ == self.files@[a].0@);
                                }
                            }
                        }
                    }
                }
            },
        }
    }

    /// The names of all stored files, each exactly once.
    pub fn names(&self) -> (r: Vec<String>)
        requires
            self.wf(),
        ensures
            forall|i: int| 0 <= i < r@.len() ==> self@.contains_key(#[trigger] r@[i]@),
            forall|k: Seq<char>|
                #[trigger] self@.contains_key(k) ==> exists|i: int|
                    0 <= i < r@.len() && r@[i]@ == k,
            forall|i: int, j: int| 0 <= i < j < r@.len() ==> r@[i]@ != r@[j]@,
    {
        let n = self.files.len();
        let mut out: Vec<String> = Vec::new();
        let mut i: usize = 0;
        while i < n
            invariant
                n == self.files@.len(),
                i <= n,
                out@.len() == i,
                forall|j: int| 0 <= j < i ==> (#[trigger] out@[j]@) == self.files@[j].0@,
            decreases n - i,
        {
            out.push(self.files[i].0.clone());
            i += 1;
        }
        proof {
            assert forall|idx: int| 0 <= idx < out@.len() implies self@.contains_key(
                #[trigger] out@[idx]@,
            ) by {
                lemma_files_map_has_key(self.files@, out@[idx]@);
                assert(self.files@[idx].0@ == out@[idx]@);
                assert(has_key(self.files@, out@[idx]@));
            }
            assert forall|k: Seq<char>| #[trigger] self@.contains_key(k) implies exists|idx: int|
                0 <= idx < out@.len() && out@[idx]@ == k by {
                lemma_files_map_has_key(self.files@, k);
                let j = choose|j: int|
                    0 <= j < self.files@.len() && (#[trigger] self.files@[j].0@) == k;
                assert(out@[j]@ == k);
            }
        }
        out
    }
}

} // verus!
