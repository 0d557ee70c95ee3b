//! The registry: an explicit, append-only table of static script
//! descriptors, and the schema collected from it.

use crate::descriptor::ScriptInventory;
use crate::schema::{Schema, ScriptMeta, ScriptMetaView};
use vstd::prelude::*;

verus! {

/// Every submitted entry, in submission order. Entries are only ever
/// appended: nothing is removed, replaced or reordered.
pub struct Registry {
    entries: Vec<ScriptInventory>,
}

impl View for Registry {
    type V = Seq<ScriptMetaView>;

    closed spec fn view(&self) -> Seq<ScriptMetaView> {
        self.entries@.map_values(|e: ScriptInventory| e@)
    }
}

/// The registry's contents after submitting `subs`, in that order, to an
/// empty registry.
pub open spec fn submitted(subs: Seq<ScriptMetaView>) -> Seq<ScriptMetaView>
    decreases subs.len(),
{
    if subs.len() == 0 {
        Seq::empty()
    } else {
        submitted(subs.drop_last()).push(subs.last())
    }
}

impl Registry {
    /// A registry with no entries.
    pub fn new() -> (r: Registry)
        ensures
            r@ == Seq::<ScriptMetaView>::empty(),
    {
        let r = Registry { entries: Vec::new() };
        assert(r@ =~= Seq::<ScriptMetaView>::empty());
        r
    }

    /// Adds one entry after all earlier ones.
    pub fn submit(&mut self, entry: ScriptInventory)
        ensures
            final(self)@ == old(self)@.push(entry@),
    {
        self.entries.push(entry);
        assert(self@ =~= old(self)@.push(entry@));
    }

    /// The number of entries submitted so far.
    pub fn len(&self) -> (r: usize)
        ensures
            r == self@.len(),
    {
        self.entries.len()
    }

    /// The owned schema of every entry, in registry order: one script per
    /// entry, each the lossless copy of its static descriptor.
    pub fn collect_schema(&self) -> (r: Schema)
        ensures
            r@ == self@,
    {
        let n: usize = self.entries.len();
        let mut scripts: Vec<ScriptMeta> = Vec::new();
        let mut i: usize = 0;
        while i < n
            invariant
                n == self.entries@.len(),
                i <= n,
                scripts@.len() == i,
                forall|j: int| 0 <= j < i ==> #[trigger] scripts@[j]@ == self.entries@[j]@,
            decreases n - i,
        {
            let s = ScriptMeta::from_static(self.entries[i].0);
            scripts.push(s);
            i += 1;
        }
        let r = Schema { scripts };
        assert(r@ =~= self@);
        r
    }
}

/// Completeness: whatever order `n` independent submissions arrive in, the
/// collected schema holds exactly those `n` scripts, each exactly once.
pub proof fn lemma_collect_complete(subs: Seq<ScriptMetaView>, reordered: Seq<ScriptMetaView>)
    requires
        reordered.to_multiset() == subs.to_multiset(),
    ensures
        submitted(subs) == subs,
        submitted(subs).len() == subs.len(),
        submitted(reordered).len() == subs.len(),
        submitted(reordered).to_multiset() == submitted(subs).to_multiset(),
{
    lemma_submitted_in_order(subs);
    lemma_submitted_in_order(reordered);
    broadcast use vstd::seq_lib::group_to_multiset_ensures;
    assert(reordered.len() == reordered.to_multiset().len());
}

/// Submitting entries one after another leaves them in submission order.
pub proof fn lemma_submitted_in_order(subs: Seq<ScriptMetaView>)
    ensures
        submitted(subs) == subs,
    decreases subs.len(),
{
    if subs.len() > 0 {
        lemma_submitted_in_order(subs.drop_last());
        assert(subs.drop_last().push(subs.last()) =~= subs);
    } else {
        assert(subs =~= Seq::<ScriptMetaView>::empty());
    }
}

/// With nothing submitted, the collected schema has no scripts.
pub proof fn lemma_collect_empty()
    ensures
        submitted(Seq::<ScriptMetaView>::empty()) == Seq::<ScriptMetaView>::empty(),
{
}

} // verus!
