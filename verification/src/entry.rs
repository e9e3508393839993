//! The protocol-neutral description of a remote node, and the ordering
//! policy that every adapter applies to its listings: directories first,
//! then files, each group sorted by case-insensitively folded name.

use vstd::multiset::Multiset;
use vstd::prelude::*;

verus! {

/// A remote node as every adapter reports it: `path` is absolute with
/// forward slashes, `size` is 0 for directories or when unknown,
/// `modified` is empty when unavailable, and `permissions` is present
/// only where the protocol supplies permission bits.
#[derive(Debug, Clone)]
pub struct FileEntry {
    pub name: String,
    pub path: String,
    pub is_directory: bool,
    pub size: u64,
    pub modified: String,
    pub permissions: Option<String>,
}

/// The code point used when comparing names case-insensitively:
/// ASCII upper-case letters fold onto their lower-case forms.
pub open spec fn fold_code(c: char) -> int {
    if 65 <= c as int && c as int <= 90 {
        c as int + 32
    } else {
        c as int
    }
}

/// Lexicographic less-or-equal over case-folded names.
pub open spec fn name_le(a: Seq<char>, b: Seq<char>) -> bool
    decreases a.len(),
{
    if a.len() == 0 {
        true
    } else if b.len() == 0 {
        false
    } else if fold_code(a[0]) < fold_code(b[0]) {
        true
    } else if fold_code(a[0]) > fold_code(b[0]) {
        false
    } else {
        name_le(a.drop_first(), b.drop_first())
    }
}

/// The listing order shared by all three adapters: a directory precedes
/// every file, and within each group names compare case-insensitively.
pub open spec fn entry_le(a: FileEntry, b: FileEntry) -> bool {
    if a.is_directory != b.is_directory {
        a.is_directory
    } else {
        name_le(a.name@, b.name@)
    }
}

/// A listing is sorted when every earlier entry is `entry_le` every
/// later one.
pub open spec fn sorted_entries(s: Seq<FileEntry>) -> bool {
    forall|i: int, j: int| 0 <= i < j < s.len() ==> entry_le(s[i], s[j])
}

pub proof fn lemma_name_le_total(a: Seq<char>, b: Seq<char>)
    ensures
        name_le(a, b) || name_le(b, a),
    decreases a.len(),
{
    if a.len() == 0 {
    } else if b.len() == 0 {
    } else if fold_code(a[0]) == fold_code(b[0]) {
        lemma_name_le_total(a.drop_first(), b.drop_first());
    }
}

pub proof fn lemma_name_le_trans(a: Seq<char>, b: Seq<char>, c: Seq<char>)
    requires
        name_le(a, b),
        name_le(b, c),
    ensures
        name_le(a, c),
    decreases a.len(),
{
    if a.len() == 0 {
    } else if b.len() == 0 {
    } else if c.len() == 0 {
    } else {
        if fold_code(a[0]) == fold_code(b[0]) && fold_code(b[0]) == fold_code(c[0]) {
            lemma_name_le_trans(a.drop_first(), b.drop_first(), c.drop_first());
        }
    }
}

pub proof fn lemma_entry_le_total(a: FileEntry, b: FileEntry)
    ensures
        entry_le(a, b) || entry_le(b, a),
{
    if a.is_directory == b.is_directory {
        lemma_name_le_total(a.name@, b.name@);
    }
}

pub proof fn lemma_entry_le_trans(a: FileEntry, b: FileEntry, c: FileEntry)
    requires
        entry_le(a, b),
        entry_le(b, c),
    ensures
        entry_le(a, c),
{
    if a.is_directory == b.is_directory && b.is_directory == c.is_directory {
        lemma_name_le_trans(a.name@, b.name@, c.name@);
    }
}

/// Law: in a sorted listing every directory stands before every file,
/// and two entries of the same group stand in case-insensitive name
/// order.
pub proof fn lemma_listing_order(s: Seq<FileEntry>, i: int, j: int)
    requires
        sorted_entries(s),
        0 <= i < j < s.len(),
    ensures
        s[j].is_directory ==> s[i].is_directory,
        s[i].is_directory == s[j].is_directory ==> name_le(s[i].name@, s[j].name@),
{
    assert(entry_le(s[i], s[j]));
}

/// Case-folds one character's code point.
fn fold_code_exec(c: char) -> (k: u32)
    ensures
        k as int == fold_code(c),
{
    let u = c as u32;
    if 65 <= u && u <= 90 {
        u + 32
    } else {
        u
    }
}

/// Compares two names in the case-insensitive lexicographic order.
pub fn name_le_exec(a: &str, b: &str) -> (r: bool)
    ensures
        r == name_le(a@, b@),
{
    let alen = a.unicode_len();
    let blen = b.unicode_len();
    let mut i: usize = 0;
    proof {
        assert(a@.skip(0) =~= a@);
        assert(b@.skip(0) =~= b@);
    }
    loop
        invariant
            alen == a@.len(),
            blen == b@.len(),
            i <= alen,
            i <= blen,
            name_le(a@, b@) == name_le(a@.skip(i as int), b@.skip(i as int)),
        decreases alen - i,
    {
        if i >= alen {
            assert(a@.skip(i as int).len() == 0);
            return true;
        }
        if i >= blen {
            assert(b@.skip(i as int).len() == 0);
            assert(a@.skip(i as int).len() > 0);
            return false;
        }
        let ca = a.get_char(i);
        let cb = b.get_char(i);
        let ka = fold_code_exec(ca);
        let kb = fold_code_exec(cb);
        proof {
            assert(a@.skip(i as int)[0] == a@[i as int]);
            assert(b@.skip(i as int)[0] == b@[i as int]);
        }
        if ka < kb {
            return true;
        }
        if ka > kb {
            return false;
        }
        proof {
            assert(a@.skip(i as int).drop_first() =~= a@.skip(i + 1));
            assert(b@.skip(i as int).drop_first() =~= b@.skip(i + 1));
        }
        i = i + 1;
    }
}

/// Compares two entries in the shared listing order.
pub fn entry_le_exec(a: &FileEntry, b: &FileEntry) -> (r: bool)
    ensures
        r == entry_le(*a, *b),
{
    if a.is_directory != b.is_directory {
        a.is_directory
    } else {
        name_le_exec(a.name.as_str(), b.name.as_str())
    }
}

/// Finds where `e` belongs in a listing that is already sorted: after
/// everything that is `entry_le` it, before the first entry that is not.
fn insert_position(out: &Vec<FileEntry>, e: &FileEntry) -> (j: usize)
    requires
        sorted_entries(out@),
    ensures
        j <= out@.len(),
        forall|k: int| 0 <= k < j ==> entry_le(out@[k], *e),
        j < out@.len() ==> !entry_le(out@[j as int], *e),
{
    let mut j: usize = 0;
    while j < out.len()
        invariant
            j <= out@.len(),
            forall|k: int| 0 <= k < j ==> entry_le(out@[k], *e),
        decreases out@.len() - j,
    {
        if !entry_le_exec(&out[j], e) {
            return j;
        }
        j = j + 1;
    }
    j
}

proof fn lemma_sorted_insert(s: Seq<FileEntry>, j: int, e: FileEntry)
    requires
        sorted_entries(s),
        0 <= j <= s.len(),
        forall|k: int| 0 <= k < j ==> entry_le(s[k], e),
        j < s.len() ==> !entry_le(s[j], e),
    ensures
        sorted_entries(s.insert(j, e)),
{
    let t = s.insert(j, e);
    s.insert_ensures(j, e);
    if j < s.len() {
        lemma_entry_le_total(s[j], e);
    }
    assert forall|p: int, q: int| 0 <= p < q < t.len() implies entry_le(t[p], t[q]) by {
        if p < j && q < j {
        } else if p < j && q == j {
        } else if p == j && q > j {
            if q - 1 > j {
                lemma_entry_le_trans(e, s[j], s[q - 1]);
            }
        } else if p < j && q > j {
            assert(entry_le(s[p], s[q - 1]));
        }
    }
}

/// A permutation keeps length and membership: whatever stands in the
/// reordered listing stood in the original one.
pub proof fn lemma_permutation_membership(a: Seq<FileEntry>, b: Seq<FileEntry>)
    requires
        a.to_multiset() == b.to_multiset(),
    ensures
        a.len() == b.len(),
        forall|k: int| 0 <= k < b.len() ==> a.contains(b[k]),
        forall|k: int| 0 <= k < a.len() ==> b.contains(a[k]),
{
    broadcast use vstd::seq_lib::group_to_multiset_ensures;

    assert(a.to_multiset().len() == a.len());
    assert(b.to_multiset().len() == b.len());
    assert forall|k: int| 0 <= k < b.len() implies a.contains(b[k]) by {
        assert(b.contains(b[k]));
        assert(b.to_multiset().count(b[k]) > 0);
    }
    assert forall|k: int| 0 <= k < a.len() implies b.contains(a[k]) by {
        assert(a.contains(a[k]));
        assert(a.to_multiset().count(a[k]) > 0);
    }
}

/// Orders a listing by the shared policy: directories first, each group
/// case-insensitively sorted by name. The result is a permutation of
/// the input.
pub fn sort_entries(entries: Vec<FileEntry>) -> (r: Vec<FileEntry>)
    ensures
        sorted_entries(r@),
        r@.to_multiset() == entries@.to_multiset(),
{
    broadcast use vstd::seq_lib::group_to_multiset_ensures;
    broadcast use vstd::multiset::group_multiset_axioms;

    let ghost orig = entries@;
    let mut v = entries;
    let mut out: Vec<FileEntry> = Vec::new();
    proof {
        assert(out@.to_multiset().add(v@.to_multiset()) =~= orig.to_multiset());
    }
    while v.len() > 0
        invariant
            sorted_entries(out@),
            out@.to_multiset().add(v@.to_multiset()) == orig.to_multiset(),
        decreases v.len(),
    {
        let ghost old_v = v@;
        let ghost old_out = out@;
        let e = v.pop().unwrap();
        proof {
            assert(old_v =~= v@.push(e));
        }
        let j = insert_position(&out, &e);
        proof {
            lemma_sorted_insert(old_out, j as int, e);
        }
        out.insert(j, e);
        proof {
            vstd::seq_lib::to_multiset_insert(old_out, j as int, e);
            assert(out@.to_multiset() == old_out.to_multiset().insert(e));
            assert(old_v.to_multiset() == v@.to_multiset().insert(e)) by {
                assert(old_v =~= v@.push(e));
                vstd::seq_lib::to_multiset_build(v@, e);
            }
            assert(out@.to_multiset().add(v@.to_multiset()) =~= old_out.to_multiset().add(
                old_v.to_multiset(),
            ));
        }
    }
    proof {
        assert(v@.to_multiset() =~= Multiset::<FileEntry>::empty());
        assert(out@.to_multiset().add(Multiset::<FileEntry>::empty()) =~= out@.to_multiset());
    }
    out
}

} // verus!
