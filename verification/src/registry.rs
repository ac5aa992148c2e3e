//! The traits mocked so far, by name.
//!
//! A mock of a trait implements, besides the trait, every supertrait of it that
//! was mocked before; the registry is where the generator finds them.
use vstd::prelude::*;
use crate::model::TraitBlock;
use crate::traits::TraitBlockView;

verus! {

/// The traits mocked so far. A later entry under a name hides an earlier one;
/// [`BoundsRegistry::insert`] keeps one entry per name.
///
/// The entries are a vector searched by name rather than a `HashMap` keyed by
/// the name: `vstd` gives `HashMap` a model only for keys whose hashing it
/// describes (integers, `bool` and boxes of them), not for `String`.
pub struct BoundsRegistry {
    blocks: Vec<TraitBlock>,
}

impl View for BoundsRegistry {
    type V = Seq<TraitBlockView>;

    closed spec fn view(&self) -> Seq<TraitBlockView> {
        Seq::new(self.blocks@.len(), |i: int| self.blocks@[i]@)
    }
}

/// The position of the last entry named `name`, or -1 when there is none.
pub open spec fn find_last(reg: Seq<TraitBlockView>, name: Seq<char>) -> int
    decreases reg.len(),
{
    if reg.len() == 0 {
        -1
    } else if reg.last().trait_name == name {
        reg.len() - 1
    } else {
        find_last(reg.drop_last(), name)
    }
}

/// The trait registered under `name`.
pub open spec fn registry_lookup(reg: Seq<TraitBlockView>, name: Seq<char>) -> Option<TraitBlockView> {
    let i = find_last(reg, name);
    if i < 0 {
        None
    } else {
        Some(reg[i])
    }
}

/// The registry after registering `b` under its name, in place of the trait
/// registered under that name before, if any.
pub open spec fn registry_insert(reg: Seq<TraitBlockView>, b: TraitBlockView) -> Seq<TraitBlockView> {
    let i = find_last(reg, b.trait_name);
    if i < 0 {
        reg.push(b)
    } else {
        reg.update(i, b)
    }
}

/// `find_last` is -1 or the last position that holds `name`.
pub proof fn lemma_find_last(reg: Seq<TraitBlockView>, name: Seq<char>)
    ensures
        -1 <= find_last(reg, name) < reg.len(),
        find_last(reg, name) >= 0 ==> reg[find_last(reg, name)].trait_name == name,
        forall|j: int|
            find_last(reg, name) < j < reg.len() ==> #[trigger] reg[j].trait_name != name,
    decreases reg.len(),
{
    if reg.len() > 0 && reg.last().trait_name != name {
        lemma_find_last(reg.drop_last(), name);
        assert forall|j: int| find_last(reg, name) < j < reg.len() implies #[trigger] reg[j].trait_name
            != name by {
            if j < reg.len() - 1 {
                assert(reg[j] == reg.drop_last()[j]);
            }
        }
    }
}

/// A position that holds `name`, after which none does, is what `find_last` gives.
pub proof fn lemma_find_last_unique(reg: Seq<TraitBlockView>, name: Seq<char>, i: int)
    requires
        -1 <= i < reg.len(),
        i >= 0 ==> reg[i].trait_name == name,
        forall|j: int| i < j < reg.len() ==> #[trigger] reg[j].trait_name != name,
    ensures
        find_last(reg, name) == i,
    decreases reg.len(),
{
    if reg.len() > 0 && i < reg.len() - 1 {
        assert(reg.last() == reg[reg.len() - 1]);
        lemma_find_last_unique(reg.drop_last(), name, i);
    }
}

impl BoundsRegistry {
    /// No trait registered.
    pub fn new() -> (res: BoundsRegistry)
        ensures
            res@ == Seq::<TraitBlockView>::empty(),
    {
        let res = BoundsRegistry { blocks: Vec::new() };
        assert(res@ =~= Seq::<TraitBlockView>::empty());
        res
    }

    /// The number of entries.
    pub fn len(&self) -> (res: usize)
        ensures
            res == self@.len(),
    {
        self.blocks.len()
    }

    /// The position of the trait registered under `name`.
    pub fn find(&self, name: &String) -> (res: Option<usize>)
        ensures
            match res {
                Some(i) => i == find_last(self@, name@),
                None => find_last(self@, name@) < 0,
            },
    {
        let ghost reg = self@;
        let mut k: usize = self.blocks.len();
        assert(reg.take(k as int) =~= reg);
        while k > 0
            invariant
                reg == self@,
                k <= reg.len(),
                find_last(reg, name@) == find_last(reg.take(k as int), name@),
            decreases k,
        {
            assert(reg.take(k as int).last() == self.blocks@[k - 1]@);
            assert(reg.take(k as int).drop_last() =~= reg.take(k - 1));
            if self.blocks[k - 1].trait_name == *name {
                return Some(k - 1);
            }
            k = k - 1;
        }
        None
    }

    /// The entry at position `i`.
    pub fn get(&self, i: usize) -> (res: &TraitBlock)
        requires
            i < self@.len(),
        ensures
            res@ == self@[i as int],
    {
        &self.blocks[i]
    }

    /// The trait registered under `name`.
    pub fn lookup(&self, name: &String) -> (res: Option<&TraitBlock>)
        ensures
            match res {
                Some(b) => registry_lookup(self@, name@) == Some(b@),
                None => registry_lookup(self@, name@) is None,
            },
    {
        proof {
            lemma_find_last(self@, name@);
        }
        match self.find(name) {
            Some(i) => Some(&self.blocks[i]),
            None => None,
        }
    }

    /// Sets the path under which the entry at position `i` was found.
    pub fn set_package_path(&mut self, i: usize, package_path: String)
        requires
            i < old(self)@.len(),
        ensures
            final(self)@ == old(self)@.update(
                i as int,
                TraitBlockView { package_path: package_path@, ..old(self)@[i as int] },
            ),
    {
        let b = self.blocks.remove(i);
        let nb = TraitBlock {
            trait_name: b.trait_name,
            vis: b.vis,
            generics: b.generics,
            where_clause: b.where_clause,
            funcs: b.funcs,
            ty_bounds: b.ty_bounds,
            is_unsafe: b.is_unsafe,
            package_path: package_path,
            impls_sized: b.impls_sized,
        };
        self.blocks.insert(i, nb);
        assert(self@ =~= old(self)@.update(
            i as int,
            TraitBlockView { package_path: package_path@, ..old(self)@[i as int] },
        ));
    }

    /// Registers `b` under its name, in place of the trait registered under that
    /// name before, if any.
    pub fn insert(&mut self, b: TraitBlock)
        ensures
            final(self)@ == registry_insert(old(self)@, b@),
    {
        proof {
            lemma_find_last(self@, b@.trait_name);
        }
        match self.find(&b.trait_name) {
            Some(i) => {
                self.blocks.remove(i);
                self.blocks.insert(i, b);
                assert(self@ =~= old(self)@.update(i as int, b@));
            },
            None => {
                self.blocks.push(b);
                assert(self@ =~= old(self)@.push(b@));
            },
        }
    }
}

} // verus!
