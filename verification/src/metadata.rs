//! Position metadata of a finalized bundle. Description order is randomized
//! when a bundle is built, so a caller cannot assume that the n-th added
//! description is the n-th one in the bundle; this record maps each insertion
//! index to the final position of that description, one permutation per
//! category.
use vstd::prelude::*;

verus! {

/// Maps insertion order to final (shuffled) position, per category: entry
/// `n` of a category is the index within the bundle of the description made
/// by the `n`-th `add` call of that category.
#[derive(Clone, Debug)]
pub struct AirdropMetadata {
    pub(crate) spend_indices: Vec<usize>,
    pub(crate) convert_indices: Vec<usize>,
    pub(crate) output_indices: Vec<usize>,
}

impl AirdropMetadata {
    /// The recorded spend positions, by insertion order.
    pub closed spec fn spend_seq(&self) -> Seq<usize> {
        self.spend_indices@
    }

    /// The recorded convert positions, by insertion order.
    pub closed spec fn convert_seq(&self) -> Seq<usize> {
        self.convert_indices@
    }

    /// The recorded output positions, by insertion order.
    pub closed spec fn output_seq(&self) -> Seq<usize> {
        self.output_indices@
    }

    /// Packs the three recorded position vectors, one per category.
    pub(crate) fn from_parts(
        spend_indices: Vec<usize>,
        convert_indices: Vec<usize>,
        output_indices: Vec<usize>,
    ) -> (m: Self)
        ensures
            m.spend_seq() == spend_indices@,
            m.convert_seq() == convert_indices@,
            m.output_seq() == output_indices@,
    {
        AirdropMetadata { spend_indices, convert_indices, output_indices }
    }

    /// Metadata of an empty bundle: no positions recorded in any category.
    pub fn empty() -> (m: Self)
        ensures
            m.spend_seq() == Seq::<usize>::empty(),
            m.convert_seq() == Seq::<usize>::empty(),
            m.output_seq() == Seq::<usize>::empty(),
    {
        AirdropMetadata {
            spend_indices: Vec::new(),
            convert_indices: Vec::new(),
            output_indices: Vec::new(),
        }
    }

    /// The final position of the spend added by the `n`-th `add_spend`
    /// call, or nothing when fewer spends were added.
    pub fn spend_index(&self, n: usize) -> (r: Option<usize>)
        ensures
            n < self.spend_seq().len() ==> r == Some(self.spend_seq()[n as int]),
            n >= self.spend_seq().len() ==> r is None,
    {
        if n < self.spend_indices.len() {
            Some(self.spend_indices[n])
        } else {
            None
        }
    }

    /// The final position of the output added by the `n`-th `add_output`
    /// call, or nothing when fewer outputs were added.
    pub fn output_index(&self, n: usize) -> (r: Option<usize>)
        ensures
            n < self.output_seq().len() ==> r == Some(self.output_seq()[n as int]),
            n >= self.output_seq().len() ==> r is None,
    {
        if n < self.output_indices.len() {
            Some(self.output_indices[n])
        } else {
            None
        }
    }

    /// The final position of the convert added by the `n`-th `add_convert`
    /// call, or nothing when fewer converts were added.
    pub fn convert_index(&self, n: usize) -> (r: Option<usize>)
        ensures
            n < self.convert_seq().len() ==> r == Some(self.convert_seq()[n as int]),
            n >= self.convert_seq().len() ==> r is None,
    {
        if n < self.convert_indices.len() {
            Some(self.convert_indices[n])
        } else {
            None
        }
    }
}

} // verus!
