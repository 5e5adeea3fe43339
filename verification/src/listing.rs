//! Ordering of a directory listing: directories before files, each
//! class keeping its incoming order.
use vstd::prelude::*;
use vstd::seq_lib::lemma_multiset_commutative;

use crate::entry::FileData;

verus! {

/// Why a directory could not be listed.
#[derive(Clone, Copy, PartialEq, Eq, Structural, Debug)]
pub enum LoadError {
    Inaccessible,
}

/// The directory entries of `s`, in their incoming order.
pub open spec fn dirs_of(s: Seq<FileData>) -> Seq<FileData>
    decreases s.len(),
{
    if s.len() == 0 {
        s
    } else if s.last().is_dir {
        dirs_of(s.drop_last()).push(s.last())
    } else {
        dirs_of(s.drop_last())
    }
}

/// The file entries of `s`, in their incoming order.
pub open spec fn files_of(s: Seq<FileData>) -> Seq<FileData>
    decreases s.len(),
{
    if s.len() == 0 {
        s
    } else if !s.last().is_dir {
        files_of(s.drop_last()).push(s.last())
    } else {
        files_of(s.drop_last())
    }
}

/// Orders a listing: directories first, files after, each class in
/// its incoming order. A pure function of the incoming sequence, so
/// listing an unchanged directory again gives the same order.
pub fn sort_entries(entries: &Vec<FileData>) -> (r: Vec<FileData>)
    ensures
        r@ == dirs_of(entries@) + files_of(entries@),
{
    let mut dirs: Vec<FileData> = Vec::new();
    let mut files: Vec<FileData> = Vec::new();
    let n: usize = entries.len();
    let mut i: usize = 0;
    while i < n
        invariant
            i <= n == entries@.len(),
            dirs@ == dirs_of(entries@.take(i as int)),
            files@ == files_of(entries@.take(i as int)),
        decreases n - i,
    {
        proof {
            assert(entries@.take(i + 1).drop_last() =~= entries@.take(i as int));
            assert(entries@.take(i + 1).last() == entries@[i as int]);
        }
        if entries[i].is_dir {
            dirs.push(entries[i].clone());
        } else {
            files.push(entries[i].clone());
        }
        i = i + 1;
    }
    proof {
        assert(entries@.take(n as int) =~= entries@);
    }
    dirs.append(&mut files);
    dirs
}

/// Every entry the directory half holds is a directory; every entry
/// the file half holds is not.
proof fn lemma_halves_classified(s: Seq<FileData>)
    ensures
        forall|i: int| 0 <= i < dirs_of(s).len() ==> dirs_of(s)[i].is_dir,
        forall|i: int| 0 <= i < files_of(s).len() ==> !files_of(s)[i].is_dir,
    decreases s.len(),
{
    if s.len() > 0 {
        lemma_halves_classified(s.drop_last());
    }
}

/// The partition law of a listing: in the ordered listing every
/// directory stands before every file, and the ordered listing holds
/// exactly the incoming entries.
pub proof fn lemma_listing_partition(s: Seq<FileData>)
    ensures
        forall|i: int, j: int|
            0 <= i < (dirs_of(s) + files_of(s)).len() && 0 <= j < (dirs_of(s) + files_of(s)).len()
                && (dirs_of(s) + files_of(s))[i].is_dir && !(dirs_of(s) + files_of(s))[j].is_dir
                ==> i < j,
        (dirs_of(s) + files_of(s)).to_multiset() == s.to_multiset(),
{
    lemma_halves_classified(s);
    lemma_partition_permutes(s);
    assert forall|i: int, j: int|
        0 <= i < (dirs_of(s) + files_of(s)).len() && 0 <= j < (dirs_of(s) + files_of(s)).len()
            && (dirs_of(s) + files_of(s))[i].is_dir && !(dirs_of(s) + files_of(s))[j].is_dir
            implies i < j by {
        let both = dirs_of(s) + files_of(s);
        if i >= dirs_of(s).len() {
            assert(both[i] == files_of(s)[i - dirs_of(s).len()]);
            assert(!both[i].is_dir);
        }
        if j < dirs_of(s).len() {
            assert(both[j] == dirs_of(s)[j]);
            assert(both[j].is_dir);
        }
    }
}

proof fn lemma_partition_permutes(s: Seq<FileData>)
    ensures
        (dirs_of(s) + files_of(s)).to_multiset() == s.to_multiset(),
    decreases s.len(),
{
    broadcast use vstd::seq_lib::group_to_multiset_ensures;

    if s.len() == 0 {
        assert(dirs_of(s) + files_of(s) =~= s);
    } else {
        let s0 = s.drop_last();
        let x = s.last();
        lemma_partition_permutes(s0);
        lemma_multiset_commutative(dirs_of(s0), files_of(s0));
        lemma_multiset_commutative(dirs_of(s), files_of(s));
        assert(s0.push(x) =~= s);
        assert(s.to_multiset() =~= s0.to_multiset().insert(x));
        if x.is_dir {
            assert(dirs_of(s).to_multiset() =~= dirs_of(s0).to_multiset().insert(x));
            assert((dirs_of(s) + files_of(s)).to_multiset() =~= s.to_multiset());
        } else {
            assert(files_of(s).to_multiset() =~= files_of(s0).to_multiset().insert(x));
            assert((dirs_of(s) + files_of(s)).to_multiset() =~= s.to_multiset());
        }
    }
}

} // verus!
