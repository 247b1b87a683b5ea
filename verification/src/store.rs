//! The scene's append-only model store. Models are registered once during
//! import and referenced thereafter only by handle; no removal exists, so
//! every handle ever returned stays valid and keeps naming the same entry.

use vstd::prelude::*;
use crate::model::{Model, ModelHandle};

verus! {

/// Owns every loaded model behind stable handles.
pub struct ModelStore {
    models: Vec<Model>,
}

impl ModelStore {
    /// The models in registration order.
    pub closed spec fn models(&self) -> Seq<Model> {
        self.models@
    }

    pub fn new() -> (r: ModelStore)
        ensures
            r.models() =~= Seq::<Model>::empty(),
    {
        ModelStore { models: Vec::new() }
    }

    pub fn len(&self) -> (r: usize)
        ensures
            r == self.models().len(),
    {
        self.models.len()
    }

    /// Appends a model and returns its handle: the position it was
    /// registered at. Nothing already stored moves.
    pub fn push_model(&mut self, model: Model) -> (r: ModelHandle)
        ensures
            r@ == old(self).models().len(),
            final(self).models() =~= old(self).models().push(model),
    {
        self.models.push(model);
        ModelHandle::new(self.models.len() - 1)
    }

    pub fn get_model(&self, model_handle: &ModelHandle) -> (r: &Model)
        requires
            model_handle@ < self.models().len(),
        ensures
            *r == self.models()[model_handle@ as int],
    {
        &self.models[model_handle.index()]
    }

    pub fn get_mut_model(&mut self, model_handle: &ModelHandle) -> (r: &mut Model)
        requires
            model_handle@ < old(self).models().len(),
        ensures
            *r == old(self).models()[model_handle@ as int],
            final(self).models() =~= old(self).models().update(
                model_handle@ as int,
                *final(r),
            ),
    {
        let i = model_handle.index();
        &mut self.models[i]
    }
}

/// Handle stability: a handle taken at registration keeps addressing the
/// same entry however many models are registered after it. Registering `k`
/// models in a row therefore yields handles `0 .. k-1` in order, each
/// fetching back what was registered under it.
pub proof fn lemma_handle_stability(before: ModelStore, after: ModelStore, h: int)
    requires
        0 <= h < before.models().len(),
        // `after` extends `before`, as any sequence of pushes does.
        before.models().is_prefix_of(after.models()),
    ensures
        after.models()[h] == before.models()[h],
{
    let n = before.models().len() as int;
    assert(before.models() =~= after.models().subrange(0, n));
    assert(after.models().subrange(0, n)[h] == after.models()[h]);
}

} // verus!
