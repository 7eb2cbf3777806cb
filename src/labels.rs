use vstd::prelude::*;
use core::any::TypeId;
use crate::config::{TaskConfig, Constraint, after_all, in_all};
use crate::label::DataLabel;

verus! {

/// A set of dependency labels: a single label, the empty set `()`, or a tuple of
/// sets, whose members count in declaration order.
pub trait DataLabels {
    /// The data kinds named by the set, in declaration order.
    spec fn kinds(&self) -> Seq<TypeId>;

    /// Makes the task run after the set of every kind named here, folding the
    /// configuration through each member in order.
    fn mark_read(&self, config: TaskConfig) -> (r: TaskConfig)
        ensures
            r@ == config@ + after_all(self.kinds()),
    ;

    /// Makes the task a member of the set of every kind named here, folding the
    /// configuration through each member in order.
    fn mark_write(&self, config: TaskConfig) -> (r: TaskConfig)
        ensures
            r@ == config@ + in_all(self.kinds()),
    ;
}

impl<T: 'static + Send + Sync> DataLabels for DataLabel<T> {
    open spec fn kinds(&self) -> Seq<TypeId> {
        seq![self.kind_spec()]
    }

    fn mark_read(&self, config: TaskConfig) -> (r: TaskConfig) {
        let r = config.after(self.kind());
        assert(r@ =~= config@ + after_all(self.kinds()));
        r
    }

    fn mark_write(&self, config: TaskConfig) -> (r: TaskConfig) {
        let r = config.in_set(self.kind());
        assert(r@ =~= config@ + in_all(self.kinds()));
        r
    }
}

/// The empty set: both projections leave the configuration as it is.
impl DataLabels for () {
    open spec fn kinds(&self) -> Seq<TypeId> {
        Seq::empty()
    }

    fn mark_read(&self, config: TaskConfig) -> (r: TaskConfig) {
        assert(config@ + after_all(self.kinds()) =~= config@);
        config
    }

    fn mark_write(&self, config: TaskConfig) -> (r: TaskConfig) {
        assert(config@ + in_all(self.kinds()) =~= config@);
        config
    }
}

} // verus!
