use vstd::prelude::*;

verus! {

/// A metadata list as keys and values of characters.
pub open spec fn entries_view(v: Seq<(String, String)>) -> Seq<(Seq<char>, Seq<char>)> {
    v.map_values(|p: (String, String)| (p.0@, p.1@))
}

/// Whether no key occurs twice in `m`.
pub open spec fn keys_unique(m: Seq<(Seq<char>, Seq<char>)>) -> bool {
    forall|i: int, j: int| 0 <= i < m.len() && 0 <= j < m.len() && m[i].0 == m[j].0 ==> i == j
}

/// Whether `m` holds the key `k`.
pub open spec fn has_key(m: Seq<(Seq<char>, Seq<char>)>, k: Seq<char>) -> bool {
    exists|i: int| 0 <= i < m.len() && m[i].0 == k
}

/// `m` with `k` set to `v`: the value replaced in place where the key is
/// present, the entry appended where it is not.
pub open spec fn put(m: Seq<(Seq<char>, Seq<char>)>, k: Seq<char>, v: Seq<char>) -> Seq<
    (Seq<char>, Seq<char>),
> {
    if has_key(m, k) {
        let i = choose|i: int| 0 <= i < m.len() && m[i].0 == k;
        m.update(i, (k, v))
    } else {
        m.push((k, v))
    }
}

/// The mapping that a list of entries denotes: keys in order of first
/// appearance, each with the value of its last entry.
pub open spec fn merged(s: Seq<(Seq<char>, Seq<char>)>) -> Seq<(Seq<char>, Seq<char>)>
    decreases s.len(),
{
    if s.len() == 0 {
        Seq::empty()
    } else {
        put(merged(s.drop_last()), s.last().0, s.last().1)
    }
}

proof fn lemma_put_keeps_unique(m: Seq<(Seq<char>, Seq<char>)>, k: Seq<char>, v: Seq<char>)
    requires
        keys_unique(m),
    ensures
        keys_unique(put(m, k, v)),
{
}

/// Merges container metadata entries into a mapping: a later entry with a
/// key already present overwrites the earlier value in its place; keys are
/// compared exactly, case included.
pub fn merge_metadata(entries: Vec<(String, String)>) -> (r: Vec<(String, String)>)
    ensures
        entries_view(r@) == merged(entries_view(entries@)),
        keys_unique(entries_view(r@)),
{
    let mut out: Vec<(String, String)> = Vec::new();
    let mut i: usize = 0;
    let ghost src = entries_view(entries@);
    while i < entries.len()
        invariant
            i <= entries.len(),
            src == entries_view(entries@),
            entries_view(out@) == merged(src.take(i as int)),
            keys_unique(entries_view(out@)),
        decreases entries.len() - i,
    {
        let key = entries[i].0.clone();
        let value = entries[i].1.clone();
        let ghost before = entries_view(out@);
        proof {
            lemma_put_keeps_unique(before, key@, value@);
            assert(src.take(i + 1 as int).drop_last() == src.take(i as int));
        }
        let mut j: usize = 0;
        let mut found: bool = false;
        while j < out.len() && !found
            invariant
                j <= out.len(),
                entries_view(out@) == before,
                found ==> j < out.len() && before[j as int].0 == key@,
                !found ==> forall|q: int| 0 <= q < j ==> before[q].0 != key@,
            decreases out.len() - j + (if found {
                0int
            } else {
                1int
            }),
        {
            if out[j].0 == key {
                found = true;
            } else {
                j = j + 1;
            }
        }
        if found {
            proof {
                assert(before[j as int].0 == key@);
                let c = choose|c: int| 0 <= c < before.len() && before[c].0 == key@;
                assert(c == j);
            }
            out.set(j, (key, value));
            assert(entries_view(out@) =~= before.update(j as int, (key@, value@)));
        } else {
            assert(!has_key(before, key@)) by {
                assert(j == out.len());
            }
            out.push((key, value));
            assert(entries_view(out@) =~= before.push((key@, value@)));
        }
        i = i + 1;
    }
    assert(src.take(i as int) == src);
    out
}

} // verus!
