use vstd::prelude::*;

verus! {

/// A model that learns from a dataset and then predicts an output for an
/// input.
///
/// A model need not learn in both ways. Which datasets it learns from, and
/// for which inputs it predicts, it says itself; a method is only called
/// where the model accepts the call.
pub trait Model<I, O>: Sized {
    /// The model can learn from this labeled dataset.
    spec fn accepts_supervised(&self, dataset: &Vec<(I, O)>) -> bool;

    /// The model can learn from this unlabeled dataset.
    spec fn accepts_unsupervised(&self, dataset: &Vec<I>) -> bool;

    /// The model has an output for this input.
    spec fn predicts(&self, data: &I) -> bool;

    /// The output of the model for this input.
    spec fn prediction(&self, data: &I) -> O;

    fn fit_supervised_dataset(&mut self, dataset: &Vec<(I, O)>)
        requires
            old(self).accepts_supervised(dataset),
    ;

    fn fit_unsupervied_dataset(&mut self, dataset: &Vec<I>)
        requires
            old(self).accepts_unsupervised(dataset),
    ;

    fn predict(&self, data: &I) -> (r: O)
        requires
            self.predicts(data),
        ensures
            r == self.prediction(data),
    ;
}

} // verus!
