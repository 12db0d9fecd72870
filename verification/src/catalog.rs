//! The catalog: which assets there are, by identifier.

use std::collections::HashMap;
use vstd::prelude::*;
use vstd::string::*;
use crate::error::AppError;
use crate::ident::{compute_id, meme_id};
use crate::mime::{guess_mime, guessed_mime};
use crate::models::{Meme, MemeView, ScannedFile, ScannedFileView};

verus! {

broadcast use vstd::std_specs::hash::group_hash_axioms;

/// Whether each element of `s` is less than all that follow it.
pub open spec fn strictly_increasing(s: Seq<u32>) -> bool {
    forall|i: int, j: int| 0 <= i < j < s.len() ==> s[i] < s[j]
}

/// The asset that a scanned file becomes.
pub open spec fn described(file: ScannedFileView) -> MemeView {
    MemeView {
        id: meme_id(file.filename),
        path: file.path,
        mime_type: guessed_mime(file.filename),
        filename: file.filename,
        size_bytes: file.size_bytes,
    }
}

/// The assets that a scan yields, by identifier. Where two files have one identifier,
/// the later file of the scan is the one that stays.
pub open spec fn indexed(files: Seq<ScannedFileView>) -> Map<u32, MemeView>
    decreases files.len(),
{
    if files.len() == 0 {
        Map::empty()
    } else {
        indexed(files.drop_last()).insert(meme_id(files.last().filename), described(files.last()))
    }
}

/// The files of a scan, each by its view.
pub open spec fn views_of(files: Seq<ScannedFile>) -> Seq<ScannedFileView> {
    Seq::new(files.len(), |i: int| files[i]@)
}

/// The assets of `m`, each by its view.
pub open spec fn meme_views(m: Map<u32, Meme>) -> Map<u32, MemeView> {
    Map::new(|id: u32| m.contains_key(id), |id: u32| m[id]@)
}

/// A snapshot of the asset directory: the assets by identifier, and the identifiers in
/// ascending order.
#[derive(Debug)]
pub struct Catalog {
    memes: HashMap<u32, Meme>,
    ids: Vec<u32>,
}

/// Where `x` belongs in the ascending `v`: the number of elements below it.
fn position_for(v: &Vec<u32>, x: u32) -> (p: usize)
    requires
        strictly_increasing(v@),
    ensures
        p <= v.len(),
        forall|i: int| 0 <= i < p ==> v[i] < x,
        forall|i: int| p <= i < v.len() ==> v[i] >= x,
{
    let mut low: usize = 0;
    let mut high: usize = v.len();
    while low < high
        invariant
            low <= high <= v.len(),
            strictly_increasing(v@),
            forall|i: int| 0 <= i < low ==> v[i] < x,
            forall|i: int| high <= i < v.len() ==> v[i] >= x,
        decreases high - low,
    {
        let mid: usize = low + (high - low) / 2;
        if v[mid] < x {
            low = mid + 1;
        } else {
            high = mid;
        }
    }
    low
}

/// Puts `x`, which is not in `v`, at its place in the ascending `v`.
fn insert_ascending(v: &mut Vec<u32>, x: u32)
    requires
        strictly_increasing(old(v)@),
        !old(v)@.contains(x),
    ensures
        strictly_increasing(final(v)@),
        final(v)@.len() == old(v)@.len() + 1,
        forall|y: u32| final(v)@.contains(y) <==> (old(v)@.contains(y) || y == x),
{
    let p = position_for(v, x);
    let ghost before = v@;
    v.insert(p, x);
    proof {
        let after = v@;
        assert(after == before.insert(p as int, x));
        assert forall|i: int| p <= i < before.len() implies before[i] > x by {
            assert(before.contains(before[i]));
        }
        assert forall|i: int, j: int| 0 <= i < j < after.len() implies after[i] < after[j] by {
            if j < p {
                assert(after[i] == before[i] && after[j] == before[j]);
            } else if j == p {
                assert(after[i] == before[i]);
            } else if i < p {
                assert(after[i] == before[i] && after[j] == before[j - 1]);
            } else if i == p {
                assert(after[j] == before[j - 1]);
            } else {
                assert(after[i] == before[i - 1] && after[j] == before[j - 1]);
            }
        }
        assert forall|y: u32| after.contains(y) <==> (before.contains(y) || y == x) by {
            if after.contains(y) {
                let k = choose|k: int| 0 <= k < after.len() && after[k] == y;
                if k < p {
                    assert(before[k] == y);
                } else if k > p {
                    assert(before[k - 1] == y);
                }
            }
            if before.contains(y) {
                let k = choose|k: int| 0 <= k < before.len() && before[k] == y;
                if k < p {
                    assert(after[k] == y);
                } else {
                    assert(after[k + 1] == y);
                }
            }
            if y == x {
                assert(after[p as int] == y);
            }
        }
    }
}

impl Catalog {
    /// The assets by identifier.
    pub closed spec fn view(&self) -> Map<u32, MemeView> {
        meme_views(self.memes@)
    }

    /// The identifiers, in the order in which the catalog lists them.
    pub closed spec fn ids(&self) -> Seq<u32> {
        self.ids@
    }

    #[verifier::type_invariant]
    spec fn well_formed(&self) -> bool {
        &&& strictly_increasing(self.ids@)
        &&& forall|id: u32| self.memes@.contains_key(id) <==> self.ids@.contains(id)
        &&& forall|id: u32| self.memes@.contains_key(id) ==> (#[trigger] self.memes@[id]).id == id
    }

    /// A catalog without assets.
    pub fn empty() -> (c: Catalog)
        ensures
            c@ == Map::<u32, MemeView>::empty(),
            c.ids() == Seq::<u32>::empty(),
    {
        let c = Catalog { memes: HashMap::new(), ids: Vec::new() };
        assert(c@ =~= Map::<u32, MemeView>::empty());
        c
    }

    /// Builds the catalog of a scan. A scan that found no file gives no catalog.
    pub fn build(files: &Vec<ScannedFile>) -> (r: Result<Catalog, AppError>)
        ensures
            r is Ok <==> files@.len() > 0,
            r matches Ok(c) ==> {
                &&& c@ == indexed(views_of(files@))
                &&& strictly_increasing(c.ids())
                &&& forall|id: u32| c@.contains_key(id) <==> c.ids().contains(id)
                &&& c.ids().len() > 0
            },
            r matches Err(e) ==> e matches AppError::Internal(m) && m@ == "No memes found"@,
    {
        if files.len() == 0 {
            return Err(AppError::Internal(String::from_str("No memes found")));
        }
        let mut memes: HashMap<u32, Meme> = HashMap::new();
        let mut ids: Vec<u32> = Vec::new();
        let ghost all = views_of(files@);
        assert(meme_views(memes@) =~= indexed(all.take(0)));
        let mut i: usize = 0;
        while i < files.len()
            invariant
                i <= files.len(),
                all == views_of(files@),
                strictly_increasing(ids@),
                forall|id: u32| memes@.contains_key(id) <==> ids@.contains(id),
                forall|id: u32| memes@.contains_key(id) ==> (#[trigger] memes@[id]).id == id,
                meme_views(memes@) == indexed(all.take(i as int)),
            decreases files.len() - i,
        {
            let file = &files[i];
            let id = compute_id(file.filename.as_str());
            let meme = Meme {
                id,
                path: file.path.clone(),
                mime_type: guess_mime(file.filename.as_str()),
                filename: file.filename.clone(),
                size_bytes: file.size_bytes,
            };
            let ghost before = memes@;
            let ghost added = meme;
            proof {
                assert(all.take(i + 1).drop_last() =~= all.take(i as int));
                assert(all.take(i + 1).last() == file@);
                assert(meme@ == described(file@));
            }
            let replaced = memes.insert(id, meme);
            if replaced.is_none() {
                insert_ascending(&mut ids, id);
            }
            proof {
                assert(memes@ == before.insert(id, added));
                assert(meme_views(memes@) =~= meme_views(before).insert(id, added@));
            }
            i += 1;
        }
        proof {
            assert(all.take(files.len() as int) =~= all);
            let last = meme_id(all.last().filename);
            assert(indexed(all).contains_key(last));
            assert(memes@.contains_key(last));
            assert(ids@.contains(last));
        }
        Ok(Catalog { memes, ids })
    }

    /// The number of assets. The list of identifiers has as many elements: it is
    /// ascending and holds the identifiers of the assets, each once.
    pub fn len(&self) -> (n: usize)
        ensures
            n == self@.dom().len(),
            n == self.ids().len(),
            strictly_increasing(self.ids()),
            forall|id: u32| self@.contains_key(id) <==> self.ids().contains(id),
    {
        proof {
            use_type_invariant(self);
            assert(self@.dom() =~= self.memes@.dom());
            lemma_increasing_to_set(self.ids@);
            assert(self.ids@.to_set() =~= self.memes@.dom());
        }
        self.ids.len()
    }

    /// The asset with the identifier `id`, if there is one.
    pub fn get(&self, id: u32) -> (r: Option<&Meme>)
        ensures
            r is Some <==> self@.contains_key(id),
            r matches Some(m) ==> m@ == self@[id] && m.id == id,
    {
        proof {
            use_type_invariant(self);
        }
        self.memes.get(&id)
    }

    /// The identifier at place `index` of the ascending list.
    pub fn id_at(&self, index: usize) -> (id: u32)
        requires
            index < self.ids().len(),
        ensures
            id == self.ids()[index as int],
            self@.contains_key(id),
    {
        proof {
            use_type_invariant(self);
            assert(self.ids@.contains(self.ids@[index as int]));
        }
        self.ids[index]
    }

    /// All assets, by ascending identifier.
    pub fn list(&self) -> (r: Vec<&Meme>)
        ensures
            r@.len() == self.ids().len(),
            forall|i: int|
                0 <= i < r@.len() ==> (#[trigger] r@[i]).id == self.ids()[i] && r@[i]@
                    == self@[self.ids()[i]],
            forall|i: int, j: int| 0 <= i < j < r@.len() ==> r@[i].id < r@[j].id,
    {
        proof {
            use_type_invariant(self);
        }
        let mut out: Vec<&Meme> = Vec::new();
        let mut i: usize = 0;
        while i < self.ids.len()
            invariant
                i <= self.ids@.len(),
                out@.len() == i,
                strictly_increasing(self.ids@),
                forall|id: u32| self.memes@.contains_key(id) <==> self.ids@.contains(id),
                forall|id: u32|
                    self.memes@.contains_key(id) ==> (#[trigger] self.memes@[id]).id == id,
                forall|k: int|
                    0 <= k < i ==> (#[trigger] out@[k]).id == self.ids@[k] && out@[k]@
                        == self@[self.ids@[k]],
            decreases self.ids@.len() - i,
        {
            let id = self.ids[i];
            assert(self.ids@.contains(id));
            match self.memes.get(&id) {
                Some(meme) => {
                    out.push(meme);
                },
                None => {
                    assert(false);
                },
            }
            i += 1;
        }
        out
    }
}

/// An ascending sequence has as many elements as its set.
pub proof fn lemma_increasing_to_set(s: Seq<u32>)
    requires
        strictly_increasing(s),
    ensures
        s.to_set().len() == s.len(),
        s.no_duplicates(),
{
    assert(s.no_duplicates()) by {
        assert forall|i: int, j: int| 0 <= i < s.len() && 0 <= j < s.len() && i != j implies s[i]
            != s[j] by {
            if i < j {
                assert(s[i] < s[j]);
            } else {
                assert(s[j] < s[i]);
            }
        }
    }
    s.unique_seq_to_set();
}

/// An identifier is in the catalog of a scan exactly if a file of the scan has it.
pub proof fn lemma_indexed_dom(files: Seq<ScannedFileView>, id: u32)
    ensures
        indexed(files).contains_key(id) <==> exists|i: int|
            0 <= i < files.len() && meme_id(#[trigger] files[i].filename) == id,
    decreases files.len(),
{
    if files.len() > 0 {
        let rest = files.drop_last();
        lemma_indexed_dom(rest, id);
        if indexed(files).contains_key(id) {
            if meme_id(files.last().filename) == id {
                assert(meme_id(files[files.len() - 1].filename) == id);
            } else {
                let i = choose|i: int| 0 <= i < rest.len() && meme_id(#[trigger] rest[i].filename) == id;
                assert(meme_id(files[i].filename) == id);
            }
        }
        if exists|i: int| 0 <= i < files.len() && meme_id(#[trigger] files[i].filename) == id {
            let i = choose|i: int| 0 <= i < files.len() && meme_id(#[trigger] files[i].filename) == id;
            if i < files.len() - 1 {
                assert(meme_id(rest[i].filename) == id);
            }
        }
    }
}

/// Of the files that share an identifier, the last of the scan is the one in the
/// catalog: a file after which no file has its identifier is described there.
pub proof fn lemma_later_file_stays(files: Seq<ScannedFileView>, i: int)
    requires
        0 <= i < files.len(),
        forall|j: int|
            i < j < files.len() ==> meme_id(#[trigger] files[j].filename) != meme_id(
                files[i].filename,
            ),
    ensures
        indexed(files).contains_key(meme_id(files[i].filename)),
        indexed(files)[meme_id(files[i].filename)] == described(files[i]),
    decreases files.len(),
{
    if i < files.len() - 1 {
        let rest = files.drop_last();
        assert(meme_id(files[files.len() - 1].filename) != meme_id(files[i].filename));
        assert forall|j: int| i < j < rest.len() implies meme_id(#[trigger] rest[j].filename)
            != meme_id(rest[i].filename) by {
            assert(rest[j] == files[j]);
        }
        lemma_later_file_stays(rest, i);
    }
}

/// Every asset of a catalog describes a file of the scan, and stands under the
/// identifier of that file.
pub proof fn lemma_assets_describe_files(files: Seq<ScannedFileView>, id: u32)
    requires
        indexed(files).contains_key(id),
    ensures
        exists|i: int|
            0 <= i < files.len() && meme_id(files[i].filename) == id && indexed(files)[id]
                == described(#[trigger] files[i]),
        indexed(files)[id].id == id,
    decreases files.len(),
{
    if files.len() > 0 {
        let rest = files.drop_last();
        if meme_id(files.last().filename) == id {
            assert(indexed(files)[id] == described(files[files.len() - 1]));
        } else {
            lemma_assets_describe_files(rest, id);
            let i = choose|i: int|
                0 <= i < rest.len() && meme_id(rest[i].filename) == id && indexed(rest)[id]
                    == described(#[trigger] rest[i]);
            assert(indexed(files)[id] == described(files[i]));
        }
    }
}

/// A catalog is empty exactly if the scan found no file.
pub proof fn lemma_indexed_empty(files: Seq<ScannedFileView>)
    ensures
        indexed(files).dom().finite(),
        indexed(files).dom().len() == 0 <==> files.len() == 0,
    decreases files.len(),
{
    if files.len() > 0 {
        lemma_indexed_empty(files.drop_last());
    }
}

/// Identifiers are stable: two scans whose files bear the same names yield the same
/// identifiers, whatever else has changed about the files and in whatever order they
/// were found.
pub proof fn lemma_identifiers_stable(first: Seq<ScannedFileView>, second: Seq<ScannedFileView>)
    requires
        forall|i: int|
            0 <= i < first.len() ==> exists|j: int|
                0 <= j < second.len() && second[j].filename == #[trigger] first[i].filename,
        forall|j: int|
            0 <= j < second.len() ==> exists|i: int|
                0 <= i < first.len() && first[i].filename == #[trigger] second[j].filename,
    ensures
        indexed(first).dom() == indexed(second).dom(),
{
    assert forall|id: u32| indexed(first).contains_key(id) <==> indexed(second).contains_key(
        id,
    ) by {
        lemma_indexed_dom(first, id);
        lemma_indexed_dom(second, id);
        if indexed(first).contains_key(id) {
            let i = choose|i: int| 0 <= i < first.len() && meme_id(#[trigger] first[i].filename) == id;
            let j = choose|j: int| 0 <= j < second.len() && second[j].filename == first[i].filename;
            assert(meme_id(second[j].filename) == id);
        }
        if indexed(second).contains_key(id) {
            let j = choose|j: int| 0 <= j < second.len() && meme_id(#[trigger] second[j].filename) == id;
            let i = choose|i: int| 0 <= i < first.len() && first[i].filename == second[j].filename;
            assert(meme_id(first[i].filename) == id);
        }
    }
    assert(indexed(first).dom() =~= indexed(second).dom());
}

} // verus!
