use vstd::prelude::*;
use core::any::TypeId;
use crate::config::{TaskConfig, after_all, in_all, lemma_after_all_concat, lemma_in_all_concat};
use crate::labels::DataLabels;

verus! {

// A tuple of sets folds each projection through its members in position order,
// for every arity from one to fifteen; the empty tuple is the empty set.
impl<T0: DataLabels> DataLabels for (T0,) {
    open spec fn kinds(&self) -> Seq<TypeId> {
        self.0.kinds()
    }

    fn mark_read(&self, config: TaskConfig) -> (r: TaskConfig) {
        let ghost start = config@;
        let config = self.0.mark_read(config);
        assert(config@ =~= start + after_all(self.0.kinds()));
        config
    }

    fn mark_write(&self, config: TaskConfig) -> (r: TaskConfig) {
        let ghost start = config@;
        let config = self.0.mark_write(config);
        assert(config@ =~= start + in_all(self.0.kinds()));
        config
    }
}

impl<T0: DataLabels, T1: DataLabels> DataLabels for (T0, T1) {
    open spec fn kinds(&self) -> Seq<TypeId> {
        self.0.kinds() + self.1.kinds()
    }

    fn mark_read(&self, config: TaskConfig) -> (r: TaskConfig) {
        let ghost start = config@;
        let config = self.0.mark_read(config);
        assert(config@ =~= start + after_all(self.0.kinds()));
        let config = self.1.mark_read(config);
        proof {
            lemma_after_all_concat(self.0.kinds(), self.1.kinds());
            assert(config@ =~= start + after_all(self.0.kinds() + self.1.kinds()));
        }
        config
    }

    fn mark_write(&self, config: TaskConfig) -> (r: TaskConfig) {
        let ghost start = config@;
        let config = self.0.mark_write(config);
        assert(config@ =~= start + in_all(self.0.kinds()));
        let config = self.1.mark_write(config);
        proof {
            lemma_in_all_concat(self.0.kinds(), self.1.kinds());
            assert(config@ =~= start + in_all(self.0.kinds() + self.1.kinds()));
        }
        config
    }
}

impl<T0: DataLabels, T1: DataLabels, T2: DataLabels> DataLabels for (T0, T1, T2) {
    open spec fn kinds(&self) -> Seq<TypeId> {
        self.0.kinds() + self.1.kinds() + self.2.kinds()
    }

    fn mark_read(&self, config: TaskConfig) -> (r: TaskConfig) {
        let ghost start = config@;
        let config = self.0.mark_read(config);
        assert(config@ =~= start + after_all(self.0.kinds()));
        let config = self.1.mark_read(config);
        proof {
            lemma_after_all_concat(self.0.kinds(), self.1.kinds());
            assert(config@ =~= start + after_all(self.0.kinds() + self.1.kinds()));
        }
        let config = self.2.mark_read(config);
        proof {
            lemma_after_all_concat(self.0.kinds() + self.1.kinds(), self.2.kinds());
            assert(config@ =~= start + after_all(self.0.kinds() + self.1.kinds() + self.2.kinds()));
        }
        config
    }

    fn mark_write(&self, config: TaskConfig) -> (r: TaskConfig) {
        let ghost start = config@;
        let config = self.0.mark_write(config);
        assert(config@ =~= start + in_all(self.0.kinds()));
        let config = self.1.mark_write(config);
        proof {
            lemma_in_all_concat(self.0.kinds(), self.1.kinds());
            assert(config@ =~= start + in_all(self.0.kinds() + self.1.kinds()));
        }
        let config = self.2.mark_write(config);
        proof {
            lemma_in_all_concat(self.0.kinds() + self.1.kinds(), self.2.kinds());
            assert(config@ =~= start + in_all(self.0.kinds() + self.1.kinds() + self.2.kinds()));
        }
        config
    }
}

impl<T0: DataLabels, T1: DataLabels, T2: DataLabels, T3: DataLabels> DataLabels for (T0, T1, T2, T3) {
    open spec fn kinds(&self) -> Seq<TypeId> {
        self.0.kinds() + self.1.kinds() + self.2.kinds() + self.3.kinds()
    }

    fn mark_read(&self, config: TaskConfig) -> (r: TaskConfig) {
        let ghost start = config@;
        let config = self.0.mark_read(config);
        assert(config@ =~= start + after_all(self.0.kinds()));
        let config = self.1.mark_read(config);
        proof {
            lemma_after_all_concat(self.0.kinds(), self.1.kinds());
            assert(config@ =~= start + after_all(self.0.kinds() + self.1.kinds()));
        }
        let config = self.2.mark_read(config);
        proof {
            lemma_after_all_concat(self.0.kinds() + self.1.kinds(), self.2.kinds());
            assert(config@ =~= start + after_all(self.0.kinds() + self.1.kinds() + self.2.kinds()));
        }
        let config = self.3.mark_read(config);
        proof {
            lemma_after_all_concat(self.0.kinds() + self.1.kinds() + self.2.kinds(), self.3.kinds());
            assert(config@ =~= start + after_all(self.0.kinds() + self.1.kinds() + self.2.kinds() + self.3.kinds()));
        }
        config
    }

    fn mark_write(&self, config: TaskConfig) -> (r: TaskConfig) {
        let ghost start = config@;
        let config = self.0.mark_write(config);
        assert(config@ =~= start + in_all(self.0.kinds()));
        let config = self.1.mark_write(config);
        proof {
            lemma_in_all_concat(self.0.kinds(), self.1.kinds());
            assert(config@ =~= start + in_all(self.0.kinds() + self.1.kinds()));
        }
        let config = self.2.mark_write(config);
        proof {
            lemma_in_all_concat(self.0.kinds() + self.1.kinds(), self.2.kinds());
            assert(config@ =~= start + in_all(self.0.kinds() + self.1.kinds() + self.2.kinds()));
        }
        let config = self.3.mark_write(config);
        proof {
            lemma_in_all_concat(self.0.kinds() + self.1.kinds() + self.2.kinds(), self.3.kinds());
            assert(config@ =~= start + in_all(self.0.kinds() + self.1.kinds() + self.2.kinds() + self.3.kinds()));
        }
        config
    }
}

impl<T0: DataLabels, T1: DataLabels, T2: DataLabels, T3: DataLabels, T4: DataLabels> DataLabels for (T0, T1, T2, T3, T4) {
    open spec fn kinds(&self) -> Seq<TypeId> {
        self.0.kinds() + self.1.kinds() + self.2.kinds() + self.3.kinds() + self.4.kinds()
    }

    fn mark_read(&self, config: TaskConfig) -> (r: TaskConfig) {
        let ghost start = config@;
        let config = self.0.mark_read(config);
        assert(config@ =~= start + after_all(self.0.kinds()));
        let config = self.1.mark_read(config);
        proof {
            lemma_after_all_concat(self.0.kinds(), self.1.kinds());
            assert(config@ =~= start + after_all(self.0.kinds() + self.1.kinds()));
        }
        let config = self.2.mark_read(config);
        proof {
            lemma_after_all_concat(self.0.kinds() + self.1.kinds(), self.2.kinds());
            assert(config@ =~= start + after_all(self.0.kinds() + self.1.kinds() + self.2.kinds()));
        }
        let config = self.3.mark_read(config);
        proof {
            lemma_after_all_concat(self.0.kinds() + self.1.kinds() + self.2.kinds(), self.3.kinds());
            assert(config@ =~= start + after_all(self.0.kinds() + self.1.kinds() + self.2.kinds() + self.3.kinds()));
        }
        let config = self.4.mark_read(config);
        proof {
            lemma_after_all_concat(self.0.kinds() + self.1.kinds() + self.2.kinds() + self.3.kinds(), self.4.kinds());
            assert(config@ =~= start + after_all(self.0.kinds() + self.1.kinds() + self.2.kinds() + self.3.kinds() + self.4.kinds()));
        }
        config
    }

    fn mark_write(&self, config: TaskConfig) -> (r: TaskConfig) {
        let ghost start = config@;
        let config = self.0.mark_write(config);
        assert(config@ =~= start + in_all(self.0.kinds()));
        let config = self.1.mark_write(config);
        proof {
            lemma_in_all_concat(self.0.kinds(), self.1.kinds());
            assert(config@ =~= start + in_all(self.0.kinds() + self.1.kinds()));
        }
        let config = self.2.mark_write(config);
        proof {
            lemma_in_all_concat(self.0.kinds() + self.1.kinds(), self.2.kinds());
            assert(config@ =~= start + in_all(self.0.kinds() + self.1.kinds() + self.2.kinds()));
        }
        let config = self.3.mark_write(config);
        proof {
            lemma_in_all_concat(self.0.kinds() + self.1.kinds() + self.2.kinds(), self.3.kinds());
            assert(config@ =~= start + in_all(self.0.kinds() + self.1.kinds() + self.2.kinds() + self.3.kinds()));
        }
        let config = self.4.mark_write(config);
        proof {
            lemma_in_all_concat(self.0.kinds() + self.1.kinds() + self.2.kinds() + self.3.kinds(), self.4.kinds());
            assert(config@ =~= start + in_all(self.0.kinds() + self.1.kinds() + self.2.kinds() + self.3.kinds() + self.4.kinds()));
        }
        config
    }
}

impl<T0: DataLabels, T1: DataLabels, T2: DataLabels, T3: DataLabels, T4: DataLabels, T5: DataLabels> DataLabels for (T0, T1, T2, T3, T4, T5) {
    open spec fn kinds(&self) -> Seq<TypeId> {
        self.0.kinds() + self.1.kinds() + self.2.kinds() + self.3.kinds() + self.4.kinds() + self.5.kinds()
    }

    fn mark_read(&self, config: TaskConfig) -> (r: TaskConfig) {
        let ghost start = config@;
        let config = self.0.mark_read(config);
        assert(config@ =~= start + after_all(self.0.kinds()));
        let config = self.1.mark_read(config);
        proof {
            lemma_after_all_concat(self.0.kinds(), self.1.kinds());
            assert(config@ =~= start + after_all(self.0.kinds() + self.1.kinds()));
        }
        let config = self.2.mark_read(config);
        proof {
            lemma_after_all_concat(self.0.kinds() + self.1.kinds(), self.2.kinds());
            assert(config@ =~= start + after_all(self.0.kinds() + self.1.kinds() + self.2.kinds()));
        }
        let config = self.3.mark_read(config);
        proof {
            lemma_after_all_concat(self.0.kinds() + self.1.kinds() + self.2.kinds(), self.3.kinds());
            assert(config@ =~= start + after_all(self.0.kinds() + self.1.kinds() + self.2.kinds() + self.3.kinds()));
        }
        let config = self.4.mark_read(config);
        proof {
            lemma_after_all_concat(self.0.kinds() + self.1.kinds() + self.2.kinds() + self.3.kinds(), self.4.kinds());
            assert(config@ =~= start + after_all(self.0.kinds() + self.1.kinds() + self.2.kinds() + self.3.kinds() + self.4.kinds()));
        }
        let config = self.5.mark_read(config);
        proof {
            lemma_after_all_concat(self.0.kinds() + self.1.kinds() + self.2.kinds() + self.3.kinds() + self.4.kinds(), self.5.kinds());
            assert(config@ =~= start + after_all(self.0.kinds() + self.1.kinds() + self.2.kinds() + self.3.kinds() + self.4.kinds() + self.5.kinds()));
        }
        config
    }

    fn mark_write(&self, config: TaskConfig) -> (r: TaskConfig) {
        let ghost start = config@;
        let config = self.0.mark_write(config);
        assert(config@ =~= start + in_all(self.0.kinds()));
        let config = self.1.mark_write(config);
        proof {
            lemma_in_all_concat(self.0.kinds(), self.1.kinds());
            assert(config@ =~= start + in_all(self.0.kinds() + self.1.kinds()));
        }
        let config = self.2.mark_write(config);
        proof {
            lemma_in_all_concat(self.0.kinds() + self.1.kinds(), self.2.kinds());
            assert(config@ =~= start + in_all(self.0.kinds() + self.1.kinds() + self.2.kinds()));
        }
        let config = self.3.mark_write(config);
        proof {
            lemma_in_all_concat(self.0.kinds() + self.1.kinds() + self.2.kinds(), self.3.kinds());
            assert(config@ =~= start + in_all(self.0.kinds() + self.1.kinds() + self.2.kinds() + self.3.kinds()));
        }
        let config = self.4.mark_write(config);
        proof {
            lemma_in_all_concat(self.0.kinds() + self.1.kinds() + self.2.kinds() + self.3.kinds(), self.4.kinds());
            assert(config@ =~= start + in_all(self.0.kinds() + self.1.kinds() + self.2.kinds() + self.3.kinds() + self.4.kinds()));
        }
        let config = self.5.mark_write(config);
        proof {
            lemma_in_all_concat(self.0.kinds() + self.1.kinds() + self.2.kinds() + self.3.kinds() + self.4.kinds(), self.5.kinds());
            assert(config@ =~= start + in_all(self.0.kinds() + self.1.kinds() + self.2.kinds() + self.3.kinds() + self.4.kinds() + self.5.kinds()));
        }
        config
    }
}

impl<T0: DataLabels, T1: DataLabels, T2: DataLabels, T3: DataLabels, T4: DataLabels, T5: DataLabels, T6: DataLabels> DataLabels for (T0, T1, T2, T3, T4, T5, T6) {
    open spec fn kinds(&self) -> Seq<TypeId> {
        self.0.kinds() + self.1.kinds() + self.2.kinds() + self.3.kinds() + self.4.kinds() + self.5.kinds() + self.6.kinds()
    }

    fn mark_read(&self, config: TaskConfig) -> (r: TaskConfig) {
        let ghost start = config@;
        let config = self.0.mark_read(config);
        assert(config@ =~= start + after_all(self.0.kinds()));
        let config = self.1.mark_read(config);
        proof {
            lemma_after_all_concat(self.0.kinds(), self.1.kinds());
            assert(config@ =~= start + after_all(self.0.kinds() + self.1.kinds()));
        }
        let config = self.2.mark_read(config);
        proof {
            lemma_after_all_concat(self.0.kinds() + self.1.kinds(), self.2.kinds());
            assert(config@ =~= start + after_all(self.0.kinds() + self.1.kinds() + self.2.kinds()));
        }
        let config = self.3.mark_read(config);
        proof {
            lemma_after_all_concat(self.0.kinds() + self.1.kinds() + self.2.kinds(), self.3.kinds());
            assert(config@ =~= start + after_all(self.0.kinds() + self.1.kinds() + self.2.kinds() + self.3.kinds()));
        }
        let config = self.4.mark_read(config);
        proof {
            lemma_after_all_concat(self.0.kinds() + self.1.kinds() + self.2.kinds() + self.3.kinds(), self.4.kinds());
            assert(config@ =~= start + after_all(self.0.kinds() + self.1.kinds() + self.2.kinds() + self.3.kinds() + self.4.kinds()));
        }
        let config = self.5.mark_read(config);
        proof {
            lemma_after_all_concat(self.0.kinds() + self.1.kinds() + self.2.kinds() + self.3.kinds() + self.4.kinds(), self.5.kinds());
            assert(config@ =~= start + after_all(self.0.kinds() + self.1.kinds() + self.2.kinds() + self.3.kinds() + self.4.kinds() + self.5.kinds()));
        }
        let config = self.6.mark_read(config);
        proof {
            lemma_after_all_concat(self.0.kinds() + self.1.kinds() + self.2.kinds() + self.3.kinds() + self.4.kinds() + self.5.kinds(), self.6.kinds());
            assert(config@ =~= start + after_all(self.0.kinds() + self.1.kinds() + self.2.kinds() + self.3.kinds() + self.4.kinds() + self.5.kinds() + self.6.kinds()));
        }
        config
    }

    fn mark_write(&self, config: TaskConfig) -> (r: TaskConfig) {
        let ghost start = config@;
        let config = self.0.mark_write(config);
        assert(config@ =~= start + in_all(self.0.kinds()));
        let config = self.1.mark_write(config);
        proof {
            lemma_in_all_concat(self.0.kinds(), self.1.kinds());
            assert(config@ =~= start + in_all(self.0.kinds() + self.1.kinds()));
        }
        let config = self.2.mark_write(config);
        proof {
            lemma_in_all_concat(self.0.kinds() + self.1.kinds(), self.2.kinds());
            assert(config@ =~= start + in_all(self.0.kinds() + self.1.kinds() + self.2.kinds()));
        }
        let config = self.3.mark_write(config);
        proof {
            lemma_in_all_concat(self.0.kinds() + self.1.kinds() + self.2.kinds(), self.3.kinds());
            assert(config@ =~= start + in_all(self.0.kinds() + self.1.kinds() + self.2.kinds() + self.3.kinds()));
        }
        let config = self.4.mark_write(config);
        proof {
            lemma_in_all_concat(self.0.kinds() + self.1.kinds() + self.2.kinds() + self.3.kinds(), self.4.kinds());
            assert(config@ =~= start + in_all(self.0.kinds() + self.1.kinds() + self.2.kinds() + self.3.kinds() + self.4.kinds()));
        }
        let config = self.5.mark_write(config);
        proof {
            lemma_in_all_concat(self.0.kinds() + self.1.kinds() + self.2.kinds() + self.3.kinds() + self.4.kinds(), self.5.kinds());
            assert(config@ =~= start + in_all(self.0.kinds() + self.1.kinds() + self.2.kinds() + self.3.kinds() + self.4.kinds() + self.5.kinds()));
        }
        let config = self.6.mark_write(config);
        proof {
            lemma_in_all_concat(self.0.kinds() + self.1.kinds() + self.2.kinds() + self.3.kinds() + self.4.kinds() + self.5.kinds(), self.6.kinds());
            assert(config@ =~= start + in_all(self.0.kinds() + self.1.kinds() + self.2.kinds() + self.3.kinds() + self.4.kinds() + self.5.kinds() + self.6.kinds()));
        }
        config
    }
}

impl<T0: DataLabels, T1: DataLabels, T2: DataLabels, T3: DataLabels, T4: DataLabels, T5: DataLabels, T6: DataLabels, T7: DataLabels> DataLabels for (T0, T1, T2, T3, T4, T5, T6, T7) {
    open spec fn kinds(&self) -> Seq<TypeId> {
        self.0.kinds() + self.1.kinds() + self.2.kinds() + self.3.kinds() + self.4.kinds() + self.5.kinds() + self.6.kinds() + self.7.kinds()
    }

    fn mark_read(&self, config: TaskConfig) -> (r: TaskConfig) {
        let ghost start = config@;
        let config = self.0.mark_read(config);
        assert(config@ =~= start + after_all(self.0.kinds()));
        let config = self.1.mark_read(config);
        proof {
            lemma_after_all_concat(self.0.kinds(), self.1.kinds());
            assert(config@ =~= start + after_all(self.0.kinds() + self.1.kinds()));
        }
        let config = self.2.mark_read(config);
        proof {
            lemma_after_all_concat(self.0.kinds() + self.1.kinds(), self.2.kinds());
            assert(config@ =~= start + after_all(self.0.kinds() + self.1.kinds() + self.2.kinds()));
        }
        let config = self.3.mark_read(config);
        proof {
            lemma_after_all_concat(self.0.kinds() + self.1.kinds() + self.2.kinds(), self.3.kinds());
            assert(config@ =~= start + after_all(self.0.kinds() + self.1.kinds() + self.2.kinds() + self.3.kinds()));
        }
        let config = self.4.mark_read(config);
        proof {
            lemma_after_all_concat(self.0.kinds() + self.1.kinds() + self.2.kinds() + self.3.kinds(), self.4.kinds());
            assert(config@ =~= start + after_all(self.0.kinds() + self.1.kinds() + self.2.kinds() + self.3.kinds() + self.4.kinds()));
        }
        let config = self.5.mark_read(config);
        proof {
            lemma_after_all_concat(self.0.kinds() + self.1.kinds() + self.2.kinds() + self.3.kinds() + self.4.kinds(), self.5.kinds());
            assert(config@ =~= start + after_all(self.0.kinds() + self.1.kinds() + self.2.kinds() + self.3.kinds() + self.4.kinds() + self.5.kinds()));
        }
        let config = self.6.mark_read(config);
        proof {
            lemma_after_all_concat(self.0.kinds() + self.1.kinds() + self.2.kinds() + self.3.kinds() + self.4.kinds() + self.5.kinds(), self.6.kinds());
            assert(config@ =~= start + after_all(self.0.kinds() + self.1.kinds() + self.2.kinds() + self.3.kinds() + self.4.kinds() + self.5.kinds() + self.6.kinds()));
        }
        let config = self.7.mark_read(config);
        proof {
            lemma_after_all_concat(self.0.kinds() + self.1.kinds() + self.2.kinds() + self.3.kinds() + self.4.kinds() + self.5.kinds() + self.6.kinds(), self.7.kinds());
            assert(config@ =~= start + after_all(self.0.kinds() + self.1.kinds() + self.2.kinds() + self.3.kinds() + self.4.kinds() + self.5.kinds() + self.6.kinds() + self.7.kinds()));
        }
        config
    }

    fn mark_write(&self, config: TaskConfig) -> (r: TaskConfig) {
        let ghost start = config@;
        let config = self.0.mark_write(config);
        assert(config@ =~= start + in_all(self.0.kinds()));
        let config = self.1.mark_write(config);
        proof {
            lemma_in_all_concat(self.0.kinds(), self.1.kinds());
            assert(config@ =~= start + in_all(self.0.kinds() + self.1.kinds()));
        }
        let config = self.2.mark_write(config);
        proof {
            lemma_in_all_concat(self.0.kinds() + self.1.kinds(), self.2.kinds());
            assert(config@ =~= start + in_all(self.0.kinds() + self.1.kinds() + self.2.kinds()));
        }
        let config = self.3.mark_write(config);
        proof {
            lemma_in_all_concat(self.0.kinds() + self.1.kinds() + self.2.kinds(), self.3.kinds());
            assert(config@ =~= start + in_all(self.0.kinds() + self.1.kinds() + self.2.kinds() + self.3.kinds()));
        }
        let config = self.4.mark_write(config);
        proof {
            lemma_in_all_concat(self.0.kinds() + self.1.kinds() + self.2.kinds() + self.3.kinds(), self.4.kinds());
            assert(config@ =~= start + in_all(self.0.kinds() + self.1.kinds() + self.2.kinds() + self.3.kinds() + self.4.kinds()));
        }
        let config = self.5.mark_write(config);
        proof {
            lemma_in_all_concat(self.0.kinds() + self.1.kinds() + self.2.kinds() + self.3.kinds() + self.4.kinds(), self.5.kinds());
            assert(config@ =~= start + in_all(self.0.kinds() + self.1.kinds() + self.2.kinds() + self.3.kinds() + self.4.kinds() + self.5.kinds()));
        }
        let config = self.6.mark_write(config);
        proof {
            lemma_in_all_concat(self.0.kinds() + self.1.kinds() + self.2.kinds() + self.3.kinds() + self.4.kinds() + self.5.kinds(), self.6.kinds());
            assert(config@ =~= start + in_all(self.0.kinds() + self.1.kinds() + self.2.kinds() + self.3.kinds() + self.4.kinds() + self.5.kinds() + self.6.kinds()));
        }
        let config = self.7.mark_write(config);
        proof {
            lemma_in_all_concat(self.0.kinds() + self.1.kinds() + self.2.kinds() + self.3.kinds() + self.4.kinds() + self.5.kinds() + self.6.kinds(), self.7.kinds());
            assert(config@ =~= start + in_all(self.0.kinds() + self.1.kinds() + self.2.kinds() + self.3.kinds() + self.4.kinds() + self.5.kinds() + self.6.kinds() + self.7.kinds()));
        }
        config
    }
}

impl<T0: DataLabels, T1: DataLabels, T2: DataLabels, T3: DataLabels, T4: DataLabels, T5: DataLabels, T6: DataLabels, T7: DataLabels, T8: DataLabels> DataLabels for (T0, T1, T2, T3, T4, T5, T6, T7, T8) {
    open spec fn kinds(&self) -> Seq<TypeId> {
        self.0.kinds() + self.1.kinds() + self.2.kinds() + self.3.kinds() + self.4.kinds() + self.5.kinds() + self.6.kinds() + self.7.kinds() + self.8.kinds()
    }

    fn mark_read(&self, config: TaskConfig) -> (r: TaskConfig) {
        let ghost start = config@;
        let config = self.0.mark_read(config);
        assert(config@ =~= start + after_all(self.0.kinds()));
        let config = self.1.mark_read(config);
        proof {
            lemma_after_all_concat(self.0.kinds(), self.1.kinds());
            assert(config@ =~= start + after_all(self.0.kinds() + self.1.kinds()));
        }
        let config = self.2.mark_read(config);
        proof {
            lemma_after_all_concat(self.0.kinds() + self.1.kinds(), self.2.kinds());
            assert(config@ =~= start + after_all(self.0.kinds() + self.1.kinds() + self.2.kinds()));
        }
        let config = self.3.mark_read(config);
        proof {
            lemma_after_all_concat(self.0.kinds() + self.1.kinds() + self.2.kinds(), self.3.kinds());
            assert(config@ =~= start + after_all(self.0.kinds() + self.1.kinds() + self.2.kinds() + self.3.kinds()));
        }
        let config = self.4.mark_read(config);
        proof {
            lemma_after_all_concat(self.0.kinds() + self.1.kinds() + self.2.kinds() + self.3.kinds(), self.4.kinds());
            assert(config@ =~= start + after_all(self.0.kinds() + self.1.kinds() + self.2.kinds() + self.3.kinds() + self.4.kinds()));
        }
        let config = self.5.mark_read(config);
        proof {
            lemma_after_all_concat(self.0.kinds() + self.1.kinds() + self.2.kinds() + self.3.kinds() + self.4.kinds(), self.5.kinds());
            assert(config@ =~= start + after_all(self.0.kinds() + self.1.kinds() + self.2.kinds() + self.3.kinds() + self.4.kinds() + self.5.kinds()));
        }
        let config = self.6.mark_read(config);
        proof {
            lemma_after_all_concat(self.0.kinds() + self.1.kinds() + self.2.kinds() + self.3.kinds() + self.4.kinds() + self.5.kinds(), self.6.kinds());
            assert(config@ =~= start + after_all(self.0.kinds() + self.1.kinds() + self.2.kinds() + self.3.kinds() + self.4.kinds() + self.5.kinds() + self.6.kinds()));
        }
        let config = self.7.mark_read(config);
        proof {
            lemma_after_all_concat(self.0.kinds() + self.1.kinds() + self.2.kinds() + self.3.kinds() + self.4.kinds() + self.5.kinds() + self.6.kinds(), self.7.kinds());
            assert(config@ =~= start + after_all(self.0.kinds() + self.1.kinds() + self.2.kinds() + self.3.kinds() + self.4.kinds() + self.5.kinds() + self.6.kinds() + self.7.kinds()));
        }
        let config = self.8.mark_read(config);
        proof {
            lemma_after_all_concat(self.0.kinds() + self.1.kinds() + self.2.kinds() + self.3.kinds() + self.4.kinds() + self.5.kinds() + self.6.kinds() + self.7.kinds(), self.8.kinds());
            assert(config@ =~= start + after_all(self.0.kinds() + self.1.kinds() + self.2.kinds() + self.3.kinds() + self.4.kinds() + self.5.kinds() + self.6.kinds() + self.7.kinds() + self.8.kinds()));
        }
        config
    }

    fn mark_write(&self, config: TaskConfig) -> (r: TaskConfig) {
        let ghost start = config@;
        let config = self.0.mark_write(config);
        assert(config@ =~= start + in_all(self.0.kinds()));
        let config = self.1.mark_write(config);
        proof {
            lemma_in_all_concat(self.0.kinds(), self.1.kinds());
            assert(config@ =~= start + in_all(self.0.kinds() + self.1.kinds()));
        }
        let config = self.2.mark_write(config);
        proof {
            lemma_in_all_concat(self.0.kinds() + self.1.kinds(), self.2.kinds());
            assert(config@ =~= start + in_all(self.0.kinds() + self.1.kinds() + self.2.kinds()));
        }
        let config = self.3.mark_write(config);
        proof {
            lemma_in_all_concat(self.0.kinds() + self.1.kinds() + self.2.kinds(), self.3.kinds());
            assert(config@ =~= start + in_all(self.0.kinds() + self.1.kinds() + self.2.kinds() + self.3.kinds()));
        }
        let config = self.4.mark_write(config);
        proof {
            lemma_in_all_concat(self.0.kinds() + self.1.kinds() + self.2.kinds() + self.3.kinds(), self.4.kinds());
            assert(config@ =~= start + in_all(self.0.kinds() + self.1.kinds() + self.2.kinds() + self.3.kinds() + self.4.kinds()));
        }
        let config = self.5.mark_write(config);
        proof {
            lemma_in_all_concat(self.0.kinds() + self.1.kinds() + self.2.kinds() + self.3.kinds() + self.4.kinds(), self.5.kinds());
            assert(config@ =~= start + in_all(self.0.kinds() + self.1.kinds() + self.2.kinds() + self.3.kinds() + self.4.kinds() + self.5.kinds()));
        }
        let config = self.6.mark_write(config);
        proof {
            lemma_in_all_concat(self.0.kinds() + self.1.kinds() + self.2.kinds() + self.3.kinds() + self.4.kinds() + self.5.kinds(), self.6.kinds());
            assert(config@ =~= start + in_all(self.0.kinds() + self.1.kinds() + self.2.kinds() + self.3.kinds() + self.4.kinds() + self.5.kinds() + self.6.kinds()));
        }
        let config = self.7.mark_write(config);
        proof {
            lemma_in_all_concat(self.0.kinds() + self.1.kinds() + self.2.kinds() + self.3.kinds() + self.4.kinds() + self.5.kinds() + self.6.kinds(), self.7.kinds());
            assert(config@ =~= start + in_all(self.0.kinds() + self.1.kinds() + self.2.kinds() + self.3.kinds() + self.4.kinds() + self.5.kinds() + self.6.kinds() + self.7.kinds()));
        }
        let config = self.8.mark_write(config);
        proof {
            lemma_in_all_concat(self.0.kinds() + self.1.kinds() + self.2.kinds() + self.3.kinds() + self.4.kinds() + self.5.kinds() + self.6.kinds() + self.7.kinds(), self.8.kinds());
            assert(config@ =~= start + in_all(self.0.kinds() + self.1.kinds() + self.2.kinds() + self.3.kinds() + self.4.kinds() + self.5.kinds() + self.6.kinds() + self.7.kinds() + self.8.kinds()));
        }
        config
    }
}

impl<T0: DataLabels, T1: DataLabels, T2: DataLabels, T3: DataLabels, T4: DataLabels, T5: DataLabels, T6: DataLabels, T7: DataLabels, T8: DataLabels, T9: DataLabels> DataLabels for (T0, T1, T2, T3, T4, T5, T6, T7, T8, T9) {
    open spec fn kinds(&self) -> Seq<TypeId> {
        self.0.kinds() + self.1.kinds() + self.2.kinds() + self.3.kinds() + self.4.kinds() + self.5.kinds() + self.6.kinds() + self.7.kinds() + self.8.kinds() + self.9.kinds()
    }

    fn mark_read(&self, config: TaskConfig) -> (r: TaskConfig) {
        let ghost start = config@;
        let config = self.0.mark_read(config);
        assert(config@ =~= start + after_all(self.0.kinds()));
        let config = self.1.mark_read(config);
        proof {
            lemma_after_all_concat(self.0.kinds(), self.1.kinds());
            assert(config@ =~= start + after_all(self.0.kinds() + self.1.kinds()));
        }
        let config = self.2.mark_read(config);
        proof {
            lemma_after_all_concat(self.0.kinds() + self.1.kinds(), self.2.kinds());
            assert(config@ =~= start + after_all(self.0.kinds() + self.1.kinds() + self.2.kinds()));
        }
        let config = self.3.mark_read(config);
        proof {
            lemma_after_all_concat(self.0.kinds() + self.1.kinds() + self.2.kinds(), self.3.kinds());
            assert(config@ =~= start + after_all(self.0.kinds() + self.1.kinds() + self.2.kinds() + self.3.kinds()));
        }
        let config = self.4.mark_read(config);
        proof {
            lemma_after_all_concat(self.0.kinds() + self.1.kinds() + self.2.kinds() + self.3.kinds(), self.4.kinds());
            assert(config@ =~= start + after_all(self.0.kinds() + self.1.kinds() + self.2.kinds() + self.3.kinds() + self.4.kinds()));
        }
        let config = self.5.mark_read(config);
        proof {
            lemma_after_all_concat(self.0.kinds() + self.1.kinds() + self.2.kinds() + self.3.kinds() + self.4.kinds(), self.5.kinds());
            assert(config@ =~= start + after_all(self.0.kinds() + self.1.kinds() + self.2.kinds() + self.3.kinds() + self.4.kinds() + self.5.kinds()));
        }
        let config = self.6.mark_read(config);
        proof {
            lemma_after_all_concat(self.0.kinds() + self.1.kinds() + self.2.kinds() + self.3.kinds() + self.4.kinds() + self.5.kinds(), self.6.kinds());
            assert(config@ =~= start + after_all(self.0.kinds() + self.1.kinds() + self.2.kinds() + self.3.kinds() + self.4.kinds() + self.5.kinds() + self.6.kinds()));
        }
        let config = self.7.mark_read(config);
        proof {
            lemma_after_all_concat(self.0.kinds() + self.1.kinds() + self.2.kinds() + self.3.kinds() + self.4.kinds() + self.5.kinds() + self.6.kinds(), self.7.kinds());
            assert(config@ =~= start + after_all(self.0.kinds() + self.1.kinds() + self.2.kinds() + self.3.kinds() + self.4.kinds() + self.5.kinds() + self.6.kinds() + self.7.kinds()));
        }
        let config = self.8.mark_read(config);
        proof {
            lemma_after_all_concat(self.0.kinds() + self.1.kinds() + self.2.kinds() + self.3.kinds() + self.4.kinds() + self.5.kinds() + self.6.kinds() + self.7.kinds(), self.8.kinds());
            assert(config@ =~= start + after_all(self.0.kinds() + self.1.kinds() + self.2.kinds() + self.3.kinds() + self.4.kinds() + self.5.kinds() + self.6.kinds() + self.7.kinds() + self.8.kinds()));
        }
        let config = self.9.mark_read(config);
        proof {
            lemma_after_all_concat(self.0.kinds() + self.1.kinds() + self.2.kinds() + self.3.kinds() + self.4.kinds() + self.5.kinds() + self.6.kinds() + self.7.kinds() + self.8.kinds(), self.9.kinds());
            assert(config@ =~= start + after_all(self.0.kinds() + self.1.kinds() + self.2.kinds() + self.3.kinds() + self.4.kinds() + self.5.kinds() + self.6.kinds() + self.7.kinds() + self.8.kinds() + self.9.kinds()));
        }
        config
    }

    fn mark_write(&self, config: TaskConfig) -> (r: TaskConfig) {
        let ghost start = config@;
        let config = self.0.mark_write(config);
        assert(config@ =~= start + in_all(self.0.kinds()));
        let config = self.1.mark_write(config);
        proof {
            lemma_in_all_concat(self.0.kinds(), self.1.kinds());
            assert(config@ =~= start + in_all(self.0.kinds() + self.1.kinds()));
        }
        let config = self.2.mark_write(config);
        proof {
            lemma_in_all_concat(self.0.kinds() + self.1.kinds(), self.2.kinds());
            assert(config@ =~= start + in_all(self.0.kinds() + self.1.kinds() + self.2.kinds()));
        }
        let config = self.3.mark_write(config);
        proof {
            lemma_in_all_concat(self.0.kinds() + self.1.kinds() + self.2.kinds(), self.3.kinds());
            assert(config@ =~= start + in_all(self.0.kinds() + self.1.kinds() + self.2.kinds() + self.3.kinds()));
        }
        let config = self.4.mark_write(config);
        proof {
            lemma_in_all_concat(self.0.kinds() + self.1.kinds() + self.2.kinds() + self.3.kinds(), self.4.kinds());
            assert(config@ =~= start + in_all(self.0.kinds() + self.1.kinds() + self.2.kinds() + self.3.kinds() + self.4.kinds()));
        }
        let config = self.5.mark_write(config);
        proof {
            lemma_in_all_concat(self.0.kinds() + self.1.kinds() + self.2.kinds() + self.3.kinds() + self.4.kinds(), self.5.kinds());
            assert(config@ =~= start + in_all(self.0.kinds() + self.1.kinds() + self.2.kinds() + self.3.kinds() + self.4.kinds() + self.5.kinds()));
        }
        let config = self.6.mark_write(config);
        proof {
            lemma_in_all_concat(self.0.kinds() + self.1.kinds() + self.2.kinds() + self.3.kinds() + self.4.kinds() + self.5.kinds(), self.6.kinds());
            assert(config@ =~= start + in_all(self.0.kinds() + self.1.kinds() + self.2.kinds() + self.3.kinds() + self.4.kinds() + self.5.kinds() + self.6.kinds()));
        }
        let config = self.7.mark_write(config);
        proof {
            lemma_in_all_concat(self.0.kinds() + self.1.kinds() + self.2.kinds() + self.3.kinds() + self.4.kinds() + self.5.kinds() + self.6.kinds(), self.7.kinds());
            assert(config@ =~= start + in_all(self.0.kinds() + self.1.kinds() + self.2.kinds() + self.3.kinds() + self.4.kinds() + self.5.kinds() + self.6.kinds() + self.7.kinds()));
        }
        let config = self.8.mark_write(config);
        proof {
            lemma_in_all_concat(self.0.kinds() + self.1.kinds() + self.2.kinds() + self.3.kinds() + self.4.kinds() + self.5.kinds() + self.6.kinds() + self.7.kinds(), self.8.kinds());
            assert(config@ =~= start + in_all(self.0.kinds() + self.1.kinds() + self.2.kinds() + self.3.kinds() + self.4.kinds() + self.5.kinds() + self.6.kinds() + self.7.kinds() + self.8.kinds()));
        }
        let config = self.9.mark_write(config);
        proof {
            lemma_in_all_concat(self.0.kinds() + self.1.kinds() + self.2.kinds() + self.3.kinds() + self.4.kinds() + self.5.kinds() + self.6.kinds() + self.7.kinds() + self.8.kinds(), self.9.kinds());
            assert(config@ =~= start + in_all(self.0.kinds() + self.1.kinds() + self.2.kinds() + self.3.kinds() + self.4.kinds() + self.5.kinds() + self.6.kinds() + self.7.kinds() + self.8.kinds() + self.9.kinds()));
        }
        config
    }
}

impl<T0: DataLabels, T1: DataLabels, T2: DataLabels, T3: DataLabels, T4: DataLabels, T5: DataLabels, T6: DataLabels, T7: DataLabels, T8: DataLabels, T9: DataLabels, T10: DataLabels> DataLabels for (T0, T1, T2, T3, T4, T5, T6, T7, T8, T9, T10) {
    open spec fn kinds(&self) -> Seq<TypeId> {
        self.0.kinds() + self.1.kinds() + self.2.kinds() + self.3.kinds() + self.4.kinds() + self.5.kinds() + self.6.kinds() + self.7.kinds() + self.8.kinds() + self.9.kinds() + self.10.kinds()
    }

    fn mark_read(&self, config: TaskConfig) -> (r: TaskConfig) {
        let ghost start = config@;
        let config = self.0.mark_read(config);
        assert(config@ =~= start + after_all(self.0.kinds()));
        let config = self.1.mark_read(config);
        proof {
            lemma_after_all_concat(self.0.kinds(), self.1.kinds());
            assert(config@ =~= start + after_all(self.0.kinds() + self.1.kinds()));
        }
        let config = self.2.mark_read(config);
        proof {
            lemma_after_all_concat(self.0.kinds() + self.1.kinds(), self.2.kinds());
            assert(config@ =~= start + after_all(self.0.kinds() + self.1.kinds() + self.2.kinds()));
        }
        let config = self.3.mark_read(config);
        proof {
            lemma_after_all_concat(self.0.kinds() + self.1.kinds() + self.2.kinds(), self.3.kinds());
            assert(config@ =~= start + after_all(self.0.kinds() + self.1.kinds() + self.2.kinds() + self.3.kinds()));
        }
        let config = self.4.mark_read(config);
        proof {
            lemma_after_all_concat(self.0.kinds() + self.1.kinds() + self.2.kinds() + self.3.kinds(), self.4.kinds());
            assert(config@ =~= start + after_all(self.0.kinds() + self.1.kinds() + self.2.kinds() + self.3.kinds() + self.4.kinds()));
        }
        let config = self.5.mark_read(config);
        proof {
            lemma_after_all_concat(self.0.kinds() + self.1.kinds() + self.2.kinds() + self.3.kinds() + self.4.kinds(), self.5.kinds());
            assert(config@ =~= start + after_all(self.0.kinds() + self.1.kinds() + self.2.kinds() + self.3.kinds() + self.4.kinds() + self.5.kinds()));
        }
        let config = self.6.mark_read(config);
        proof {
            lemma_after_all_concat(self.0.kinds() + self.1.kinds() + self.2.kinds() + self.3.kinds() + self.4.kinds() + self.5.kinds(), self.6.kinds());
            assert(config@ =~= start + after_all(self.0.kinds() + self.1.kinds() + self.2.kinds() + self.3.kinds() + self.4.kinds() + self.5.kinds() + self.6.kinds()));
        }
        let config = self.7.mark_read(config);
        proof {
            lemma_after_all_concat(self.0.kinds() + self.1.kinds() + self.2.kinds() + self.3.kinds() + self.4.kinds() + self.5.kinds() + self.6.kinds(), self.7.kinds());
            assert(config@ =~= start + after_all(self.0.kinds() + self.1.kinds() + self.2.kinds() + self.3.kinds() + self.4.kinds() + self.5.kinds() + self.6.kinds() + self.7.kinds()));
        }
        let config = self.8.mark_read(config);
        proof {
            lemma_after_all_concat(self.0.kinds() + self.1.kinds() + self.2.kinds() + self.3.kinds() + self.4.kinds() + self.5.kinds() + self.6.kinds() + self.7.kinds(), self.8.kinds());
            assert(config@ =~= start + after_all(self.0.kinds() + self.1.kinds() + self.2.kinds() + self.3.kinds() + self.4.kinds() + self.5.kinds() + self.6.kinds() + self.7.kinds() + self.8.kinds()));
        }
        let config = self.9.mark_read(config);
        proof {
            lemma_after_all_concat(self.0.kinds() + self.1.kinds() + self.2.kinds() + self.3.kinds() + self.4.kinds() + self.5.kinds() + self.6.kinds() + self.7.kinds() + self.8.kinds(), self.9.kinds());
            assert(config@ =~= start + after_all(self.0.kinds() + self.1.kinds() + self.2.kinds() + self.3.kinds() + self.4.kinds() + self.5.kinds() + self.6.kinds() + self.7.kinds() + self.8.kinds() + self.9.kinds()));
        }
        let config = self.10.mark_read(config);
        proof {
            lemma_after_all_concat(self.0.kinds() + self.1.kinds() + self.2.kinds() + self.3.kinds() + self.4.kinds() + self.5.kinds() + self.6.kinds() + self.7.kinds() + self.8.kinds() + self.9.kinds(), self.10.kinds());
            assert(config@ =~= start + after_all(self.0.kinds() + self.1.kinds() + self.2.kinds() + self.3.kinds() + self.4.kinds() + self.5.kinds() + self.6.kinds() + self.7.kinds() + self.8.kinds() + self.9.kinds() + self.10.kinds()));
        }
        config
    }

    fn mark_write(&self, config: TaskConfig) -> (r: TaskConfig) {
        let ghost start = config@;
        let config = self.0.mark_write(config);
        assert(config@ =~= start + in_all(self.0.kinds()));
        let config = self.1.mark_write(config);
        proof {
            lemma_in_all_concat(self.0.kinds(), self.1.kinds());
            assert(config@ =~= start + in_all(self.0.kinds() + self.1.kinds()));
        }
        let config = self.2.mark_write(config);
        proof {
            lemma_in_all_concat(self.0.kinds() + self.1.kinds(), self.2.kinds());
            assert(config@ =~= start + in_all(self.0.kinds() + self.1.kinds() + self.2.kinds()));
        }
        let config = self.3.mark_write(config);
        proof {
            lemma_in_all_concat(self.0.kinds() + self.1.kinds() + self.2.kinds(), self.3.kinds());
            assert(config@ =~= start + in_all(self.0.kinds() + self.1.kinds() + self.2.kinds() + self.3.kinds()));
        }
        let config = self.4.mark_write(config);
        proof {
            lemma_in_all_concat(self.0.kinds() + self.1.kinds() + self.2.kinds() + self.3.kinds(), self.4.kinds());
            assert(config@ =~= start + in_all(self.0.kinds() + self.1.kinds() + self.2.kinds() + self.3.kinds() + self.4.kinds()));
        }
        let config = self.5.mark_write(config);
        proof {
            lemma_in_all_concat(self.0.kinds() + self.1.kinds() + self.2.kinds() + self.3.kinds() + self.4.kinds(), self.5.kinds());
            assert(config@ =~= start + in_all(self.0.kinds() + self.1.kinds() + self.2.kinds() + self.3.kinds() + self.4.kinds() + self.5.kinds()));
        }
        let config = self.6.mark_write(config);
        proof {
            lemma_in_all_concat(self.0.kinds() + self.1.kinds() + self.2.kinds() + self.3.kinds() + self.4.kinds() + self.5.kinds(), self.6.kinds());
            assert(config@ =~= start + in_all(self.0.kinds() + self.1.kinds() + self.2.kinds() + self.3.kinds() + self.4.kinds() + self.5.kinds() + self.6.kinds()));
        }
        let config = self.7.mark_write(config);
        proof {
            lemma_in_all_concat(self.0.kinds() + self.1.kinds() + self.2.kinds() + self.3.kinds() + self.4.kinds() + self.5.kinds() + self.6.kinds(), self.7.kinds());
            assert(config@ =~= start + in_all(self.0.kinds() + self.1.kinds() + self.2.kinds() + self.3.kinds() + self.4.kinds() + self.5.kinds() + self.6.kinds() + self.7.kinds()));
        }
        let config = self.8.mark_write(config);
        proof {
            lemma_in_all_concat(self.0.kinds() + self.1.kinds() + self.2.kinds() + self.3.kinds() + self.4.kinds() + self.5.kinds() + self.6.kinds() + self.7.kinds(), self.8.kinds());
            assert(config@ =~= start + in_all(self.0.kinds() + self.1.kinds() + self.2.kinds() + self.3.kinds() + self.4.kinds() + self.5.kinds() + self.6.kinds() + self.7.kinds() + self.8.kinds()));
        }
        let config = self.9.mark_write(config);
        proof {
            lemma_in_all_concat(self.0.kinds() + self.1.kinds() + self.2.kinds() + self.3.kinds() + self.4.kinds() + self.5.kinds() + self.6.kinds() + self.7.kinds() + self.8.kinds(), self.9.kinds());
            assert(config@ =~= start + in_all(self.0.kinds() + self.1.kinds() + self.2.kinds() + self.3.kinds() + self.4.kinds() + self.5.kinds() + self.6.kinds() + self.7.kinds() + self.8.kinds() + self.9.kinds()));
        }
        let config = self.10.mark_write(config);
        proof {
            lemma_in_all_concat(self.0.kinds() + self.1.kinds() + self.2.kinds() + self.3.kinds() + self.4.kinds() + self.5.kinds() + self.6.kinds() + self.7.kinds() + self.8.kinds() + self.9.kinds(), self.10.kinds());
            assert(config@ =~= start + in_all(self.0.kinds() + self.1.kinds() + self.2.kinds() + self.3.kinds() + self.4.kinds() + self.5.kinds() + self.6.kinds() + self.7.kinds() + self.8.kinds() + self.9.kinds() + self.10.kinds()));
        }
        config
    }
}

impl<T0: DataLabels, T1: DataLabels, T2: DataLabels, T3: DataLabels, T4: DataLabels, T5: DataLabels, T6: DataLabels, T7: DataLabels, T8: DataLabels, T9: DataLabels, T10: DataLabels, T11: DataLabels> DataLabels for (T0, T1, T2, T3, T4, T5, T6, T7, T8, T9, T10, T11) {
    open spec fn kinds(&self) -> Seq<TypeId> {
        self.0.kinds() + self.1.kinds() + self.2.kinds() + self.3.kinds() + self.4.kinds() + self.5.kinds() + self.6.kinds() + self.7.kinds() + self.8.kinds() + self.9.kinds() + self.10.kinds() + self.11.kinds()
    }

    fn mark_read(&self, config: TaskConfig) -> (r: TaskConfig) {
        let ghost start = config@;
        let config = self.0.mark_read(config);
        assert(config@ =~= start + after_all(self.0.kinds()));
        let config = self.1.mark_read(config);
        proof {
            lemma_after_all_concat(self.0.kinds(), self.1.kinds());
            assert(config@ =~= start + after_all(self.0.kinds() + self.1.kinds()));
        }
        let config = self.2.mark_read(config);
        proof {
            lemma_after_all_concat(self.0.kinds() + self.1.kinds(), self.2.kinds());
            assert(config@ =~= start + after_all(self.0.kinds() + self.1.kinds() + self.2.kinds()));
        }
        let config = self.3.mark_read(config);
        proof {
            lemma_after_all_concat(self.0.kinds() + self.1.kinds() + self.2.kinds(), self.3.kinds());
            assert(config@ =~= start + after_all(self.0.kinds() + self.1.kinds() + self.2.kinds() + self.3.kinds()));
        }
        let config = self.4.mark_read(config);
        proof {
            lemma_after_all_concat(self.0.kinds() + self.1.kinds() + self.2.kinds() + self.3.kinds(), self.4.kinds());
            assert(config@ =~= start + after_all(self.0.kinds() + self.1.kinds() + self.2.kinds() + self.3.kinds() + self.4.kinds()));
        }
        let config = self.5.mark_read(config);
        proof {
            lemma_after_all_concat(self.0.kinds() + self.1.kinds() + self.2.kinds() + self.3.kinds() + self.4.kinds(), self.5.kinds());
            assert(config@ =~= start + after_all(self.0.kinds() + self.1.kinds() + self.2.kinds() + self.3.kinds() + self.4.kinds() + self.5.kinds()));
        }
        let config = self.6.mark_read(config);
        proof {
            lemma_after_all_concat(self.0.kinds() + self.1.kinds() + self.2.kinds() + self.3.kinds() + self.4.kinds() + self.5.kinds(), self.6.kinds());
            assert(config@ =~= start + after_all(self.0.kinds() + self.1.kinds() + self.2.kinds() + self.3.kinds() + self.4.kinds() + self.5.kinds() + self.6.kinds()));
        }
        let config = self.7.mark_read(config);
        proof {
            lemma_after_all_concat(self.0.kinds() + self.1.kinds() + self.2.kinds() + self.3.kinds() + self.4.kinds() + self.5.kinds() + self.6.kinds(), self.7.kinds());
            assert(config@ =~= start + after_all(self.0.kinds() + self.1.kinds() + self.2.kinds() + self.3.kinds() + self.4.kinds() + self.5.kinds() + self.6.kinds() + self.7.kinds()));
        }
        let config = self.8.mark_read(config);
        proof {
            lemma_after_all_concat(self.0.kinds() + self.1.kinds() + self.2.kinds() + self.3.kinds() + self.4.kinds() + self.5.kinds() + self.6.kinds() + self.7.kinds(), self.8.kinds());
            assert(config@ =~= start + after_all(self.0.kinds() + self.1.kinds() + self.2.kinds() + self.3.kinds() + self.4.kinds() + self.5.kinds() + self.6.kinds() + self.7.kinds() + self.8.kinds()));
        }
        let config = self.9.mark_read(config);
        proof {
            lemma_after_all_concat(self.0.kinds() + self.1.kinds() + self.2.kinds() + self.3.kinds() + self.4.kinds() + self.5.kinds() + self.6.kinds() + self.7.kinds() + self.8.kinds(), self.9.kinds());
            assert(config@ =~= start + after_all(self.0.kinds() + self.1.kinds() + self.2.kinds() + self.3.kinds() + self.4.kinds() + self.5.kinds() + self.6.kinds() + self.7.kinds() + self.8.kinds() + self.9.kinds()));
        }
        let config = self.10.mark_read(config);
        proof {
            lemma_after_all_concat(self.0.kinds() + self.1.kinds() + self.2.kinds() + self.3.kinds() + self.4.kinds() + self.5.kinds() + self.6.kinds() + self.7.kinds() + self.8.kinds() + self.9.kinds(), self.10.kinds());
            assert(config@ =~= start + after_all(self.0.kinds() + self.1.kinds() + self.2.kinds() + self.3.kinds() + self.4.kinds() + self.5.kinds() + self.6.kinds() + self.7.kinds() + self.8.kinds() + self.9.kinds() + self.10.kinds()));
        }
        let config = self.11.mark_read(config);
        proof {
            lemma_after_all_concat(self.0.kinds() + self.1.kinds() + self.2.kinds() + self.3.kinds() + self.4.kinds() + self.5.kinds() + self.6.kinds() + self.7.kinds() + self.8.kinds() + self.9.kinds() + self.10.kinds(), self.11.kinds());
            assert(config@ =~= start + after_all(self.0.kinds() + self.1.kinds() + self.2.kinds() + self.3.kinds() + self.4.kinds() + self.5.kinds() + self.6.kinds() + self.7.kinds() + self.8.kinds() + self.9.kinds() + self.10.kinds() + self.11.kinds()));
        }
        config
    }

    fn mark_write(&self, config: TaskConfig) -> (r: TaskConfig) {
        let ghost start = config@;
        let config = self.0.mark_write(config);
        assert(config@ =~= start + in_all(self.0.kinds()));
        let config = self.1.mark_write(config);
        proof {
            lemma_in_all_concat(self.0.kinds(), self.1.kinds());
            assert(config@ =~= start + in_all(self.0.kinds() + self.1.kinds()));
        }
        let config = self.2.mark_write(config);
        proof {
            lemma_in_all_concat(self.0.kinds() + self.1.kinds(), self.2.kinds());
            assert(config@ =~= start + in_all(self.0.kinds() + self.1.kinds() + self.2.kinds()));
        }
        let config = self.3.mark_write(config);
        proof {
            lemma_in_all_concat(self.0.kinds() + self.1.kinds() + self.2.kinds(), self.3.kinds());
            assert(config@ =~= start + in_all(self.0.kinds() + self.1.kinds() + self.2.kinds() + self.3.kinds()));
        }
        let config = self.4.mark_write(config);
        proof {
            lemma_in_all_concat(self.0.kinds() + self.1.kinds() + self.2.kinds() + self.3.kinds(), self.4.kinds());
            assert(config@ =~= start + in_all(self.0.kinds() + self.1.kinds() + self.2.kinds() + self.3.kinds() + self.4.kinds()));
        }
        let config = self.5.mark_write(config);
        proof {
            lemma_in_all_concat(self.0.kinds() + self.1.kinds() + self.2.kinds() + self.3.kinds() + self.4.kinds(), self.5.kinds());
            assert(config@ =~= start + in_all(self.0.kinds() + self.1.kinds() + self.2.kinds() + self.3.kinds() + self.4.kinds() + self.5.kinds()));
        }
        let config = self.6.mark_write(config);
        proof {
            lemma_in_all_concat(self.0.kinds() + self.1.kinds() + self.2.kinds() + self.3.kinds() + self.4.kinds() + self.5.kinds(), self.6.kinds());
            assert(config@ =~= start + in_all(self.0.kinds() + self.1.kinds() + self.2.kinds() + self.3.kinds() + self.4.kinds() + self.5.kinds() + self.6.kinds()));
        }
        let config = self.7.mark_write(config);
        proof {
            lemma_in_all_concat(self.0.kinds() + self.1.kinds() + self.2.kinds() + self.3.kinds() + self.4.kinds() + self.5.kinds() + self.6.kinds(), self.7.kinds());
            assert(config@ =~= start + in_all(self.0.kinds() + self.1.kinds() + self.2.kinds() + self.3.kinds() + self.4.kinds() + self.5.kinds() + self.6.kinds() + self.7.kinds()));
        }
        let config = self.8.mark_write(config);
        proof {
            lemma_in_all_concat(self.0.kinds() + self.1.kinds() + self.2.kinds() + self.3.kinds() + self.4.kinds() + self.5.kinds() + self.6.kinds() + self.7.kinds(), self.8.kinds());
            assert(config@ =~= start + in_all(self.0.kinds() + self.1.kinds() + self.2.kinds() + self.3.kinds() + self.4.kinds() + self.5.kinds() + self.6.kinds() + self.7.kinds() + self.8.kinds()));
        }
        let config = self.9.mark_write(config);
        proof {
            lemma_in_all_concat(self.0.kinds() + self.1.kinds() + self.2.kinds() + self.3.kinds() + self.4.kinds() + self.5.kinds() + self.6.kinds() + self.7.kinds() + self.8.kinds(), self.9.kinds());
            assert(config@ =~= start + in_all(self.0.kinds() + self.1.kinds() + self.2.kinds() + self.3.kinds() + self.4.kinds() + self.5.kinds() + self.6.kinds() + self.7.kinds() + self.8.kinds() + self.9.kinds()));
        }
        let config = self.10.mark_write(config);
        proof {
            lemma_in_all_concat(self.0.kinds() + self.1.kinds() + self.2.kinds() + self.3.kinds() + self.4.kinds() + self.5.kinds() + self.6.kinds() + self.7.kinds() + self.8.kinds() + self.9.kinds(), self.10.kinds());
            assert(config@ =~= start + in_all(self.0.kinds() + self.1.kinds() + self.2.kinds() + self.3.kinds() + self.4.kinds() + self.5.kinds() + self.6.kinds() + self.7.kinds() + self.8.kinds() + self.9.kinds() + self.10.kinds()));
        }
        let config = self.11.mark_write(config);
        proof {
            lemma_in_all_concat(self.0.kinds() + self.1.kinds() + self.2.kinds() + self.3.kinds() + self.4.kinds() + self.5.kinds() + self.6.kinds() + self.7.kinds() + self.8.kinds() + self.9.kinds() + self.10.kinds(), self.11.kinds());
            assert(config@ =~= start + in_all(self.0.kinds() + self.1.kinds() + self.2.kinds() + self.3.kinds() + self.4.kinds() + self.5.kinds() + self.6.kinds() + self.7.kinds() + self.8.kinds() + self.9.kinds() + self.10.kinds() + self.11.kinds()));
        }
        config
    }
}

impl<T0: DataLabels, T1: DataLabels, T2: DataLabels, T3: DataLabels, T4: DataLabels, T5: DataLabels, T6: DataLabels, T7: DataLabels, T8: DataLabels, T9: DataLabels, T10: DataLabels, T11: DataLabels, T12: DataLabels> DataLabels for (T0, T1, T2, T3, T4, T5, T6, T7, T8, T9, T10, T11, T12) {
    open spec fn kinds(&self) -> Seq<TypeId> {
        self.0.kinds() + self.1.kinds() + self.2.kinds() + self.3.kinds() + self.4.kinds() + self.5.kinds() + self.6.kinds() + self.7.kinds() + self.8.kinds() + self.9.kinds() + self.10.kinds() + self.11.kinds() + self.12.kinds()
    }

    fn mark_read(&self, config: TaskConfig) -> (r: TaskConfig) {
        let ghost start = config@;
        let config = self.0.mark_read(config);
        assert(config@ =~= start + after_all(self.0.kinds()));
        let config = self.1.mark_read(config);
        proof {
            lemma_after_all_concat(self.0.kinds(), self.1.kinds());
            assert(config@ =~= start + after_all(self.0.kinds() + self.1.kinds()));
        }
        let config = self.2.mark_read(config);
        proof {
            lemma_after_all_concat(self.0.kinds() + self.1.kinds(), self.2.kinds());
            assert(config@ =~= start + after_all(self.0.kinds() + self.1.kinds() + self.2.kinds()));
        }
        let config = self.3.mark_read(config);
        proof {
            lemma_after_all_concat(self.0.kinds() + self.1.kinds() + self.2.kinds(), self.3.kinds());
            assert(config@ =~= start + after_all(self.0.kinds() + self.1.kinds() + self.2.kinds() + self.3.kinds()));
        }
        let config = self.4.mark_read(config);
        proof {
            lemma_after_all_concat(self.0.kinds() + self.1.kinds() + self.2.kinds() + self.3.kinds(), self.4.kinds());
            assert(config@ =~= start + after_all(self.0.kinds() + self.1.kinds() + self.2.kinds() + self.3.kinds() + self.4.kinds()));
        }
        let config = self.5.mark_read(config);
        proof {
            lemma_after_all_concat(self.0.kinds() + self.1.kinds() + self.2.kinds() + self.3.kinds() + self.4.kinds(), self.5.kinds());
            assert(config@ =~= start + after_all(self.0.kinds() + self.1.kinds() + self.2.kinds() + self.3.kinds() + self.4.kinds() + self.5.kinds()));
        }
        let config = self.6.mark_read(config);
        proof {
            lemma_after_all_concat(self.0.kinds() + self.1.kinds() + self.2.kinds() + self.3.kinds() + self.4.kinds() + self.5.kinds(), self.6.kinds());
            assert(config@ =~= start + after_all(self.0.kinds() + self.1.kinds() + self.2.kinds() + self.3.kinds() + self.4.kinds() + self.5.kinds() + self.6.kinds()));
        }
        let config = self.7.mark_read(config);
        proof {
            lemma_after_all_concat(self.0.kinds() + self.1.kinds() + self.2.kinds() + self.3.kinds() + self.4.kinds() + self.5.kinds() + self.6.kinds(), self.7.kinds());
            assert(config@ =~= start + after_all(self.0.kinds() + self.1.kinds() + self.2.kinds() + self.3.kinds() + self.4.kinds() + self.5.kinds() + self.6.kinds() + self.7.kinds()));
        }
        let config = self.8.mark_read(config);
        proof {
            lemma_after_all_concat(self.0.kinds() + self.1.kinds() + self.2.kinds() + self.3.kinds() + self.4.kinds() + self.5.kinds() + self.6.kinds() + self.7.kinds(), self.8.kinds());
            assert(config@ =~= start + after_all(self.0.kinds() + self.1.kinds() + self.2.kinds() + self.3.kinds() + self.4.kinds() + self.5.kinds() + self.6.kinds() + self.7.kinds() + self.8.kinds()));
        }
        let config = self.9.mark_read(config);
        proof {
            lemma_after_all_concat(self.0.kinds() + self.1.kinds() + self.2.kinds() + self.3.kinds() + self.4.kinds() + self.5.kinds() + self.6.kinds() + self.7.kinds() + self.8.kinds(), self.9.kinds());
            assert(config@ =~= start + after_all(self.0.kinds() + self.1.kinds() + self.2.kinds() + self.3.kinds() + self.4.kinds() + self.5.kinds() + self.6.kinds() + self.7.kinds() + self.8.kinds() + self.9.kinds()));
        }
        let config = self.10.mark_read(config);
        proof {
            lemma_after_all_concat(self.0.kinds() + self.1.kinds() + self.2.kinds() + self.3.kinds() + self.4.kinds() + self.5.kinds() + self.6.kinds() + self.7.kinds() + self.8.kinds() + self.9.kinds(), self.10.kinds());
            assert(config@ =~= start + after_all(self.0.kinds() + self.1.kinds() + self.2.kinds() + self.3.kinds() + self.4.kinds() + self.5.kinds() + self.6.kinds() + self.7.kinds() + self.8.kinds() + self.9.kinds() + self.10.kinds()));
        }
        let config = self.11.mark_read(config);
        proof {
            lemma_after_all_concat(self.0.kinds() + self.1.kinds() + self.2.kinds() + self.3.kinds() + self.4.kinds() + self.5.kinds() + self.6.kinds() + self.7.kinds() + self.8.kinds() + self.9.kinds() + self.10.kinds(), self.11.kinds());
            assert(config@ =~= start + after_all(self.0.kinds() + self.1.kinds() + self.2.kinds() + self.3.kinds() + self.4.kinds() + self.5.kinds() + self.6.kinds() + self.7.kinds() + self.8.kinds() + self.9.kinds() + self.10.kinds() + self.11.kinds()));
        }
        let config = self.12.mark_read(config);
        proof {
            lemma_after_all_concat(self.0.kinds() + self.1.kinds() + self.2.kinds() + self.3.kinds() + self.4.kinds() + self.5.kinds() + self.6.kinds() + self.7.kinds() + self.8.kinds() + self.9.kinds() + self.10.kinds() + self.11.kinds(), self.12.kinds());
            assert(config@ =~= start + after_all(self.0.kinds() + self.1.kinds() + self.2.kinds() + self.3.kinds() + self.4.kinds() + self.5.kinds() + self.6.kinds() + self.7.kinds() + self.8.kinds() + self.9.kinds() + self.10.kinds() + self.11.kinds() + self.12.kinds()));
        }
        config
    }

    fn mark_write(&self, config: TaskConfig) -> (r: TaskConfig) {
        let ghost start = config@;
        let config = self.0.mark_write(config);
        assert(config@ =~= start + in_all(self.0.kinds()));
        let config = self.1.mark_write(config);
        proof {
            lemma_in_all_concat(self.0.kinds(), self.1.kinds());
            assert(config@ =~= start + in_all(self.0.kinds() + self.1.kinds()));
        }
        let config = self.2.mark_write(config);
        proof {
            lemma_in_all_concat(self.0.kinds() + self.1.kinds(), self.2.kinds());
            assert(config@ =~= start + in_all(self.0.kinds() + self.1.kinds() + self.2.kinds()));
        }
        let config = self.3.mark_write(config);
        proof {
            lemma_in_all_concat(self.0.kinds() + self.1.kinds() + self.2.kinds(), self.3.kinds());
            assert(config@ =~= start + in_all(self.0.kinds() + self.1.kinds() + self.2.kinds() + self.3.kinds()));
        }
        let config = self.4.mark_write(config);
        proof {
            lemma_in_all_concat(self.0.kinds() + self.1.kinds() + self.2.kinds() + self.3.kinds(), self.4.kinds());
            assert(config@ =~= start + in_all(self.0.kinds() + self.1.kinds() + self.2.kinds() + self.3.kinds() + self.4.kinds()));
        }
        let config = self.5.mark_write(config);
        proof {
            lemma_in_all_concat(self.0.kinds() + self.1.kinds() + self.2.kinds() + self.3.kinds() + self.4.kinds(), self.5.kinds());
            assert(config@ =~= start + in_all(self.0.kinds() + self.1.kinds() + self.2.kinds() + self.3.kinds() + self.4.kinds() + self.5.kinds()));
        }
        let config = self.6.mark_write(config);
        proof {
            lemma_in_all_concat(self.0.kinds() + self.1.kinds() + self.2.kinds() + self.3.kinds() + self.4.kinds() + self.5.kinds(), self.6.kinds());
            assert(config@ =~= start + in_all(self.0.kinds() + self.1.kinds() + self.2.kinds() + self.3.kinds() + self.4.kinds() + self.5.kinds() + self.6.kinds()));
        }
        let config = self.7.mark_write(config);
        proof {
            lemma_in_all_concat(self.0.kinds() + self.1.kinds() + self.2.kinds() + self.3.kinds() + self.4.kinds() + self.5.kinds() + self.6.kinds(), self.7.kinds());
            assert(config@ =~= start + in_all(self.0.kinds() + self.1.kinds() + self.2.kinds() + self.3.kinds() + self.4.kinds() + self.5.kinds() + self.6.kinds() + self.7.kinds()));
        }
        let config = self.8.mark_write(config);
        proof {
            lemma_in_all_concat(self.0.kinds() + self.1.kinds() + self.2.kinds() + self.3.kinds() + self.4.kinds() + self.5.kinds() + self.6.kinds() + self.7.kinds(), self.8.kinds());
            assert(config@ =~= start + in_all(self.0.kinds() + self.1.kinds() + self.2.kinds() + self.3.kinds() + self.4.kinds() + self.5.kinds() + self.6.kinds() + self.7.kinds() + self.8.kinds()));
        }
        let config = self.9.mark_write(config);
        proof {
            lemma_in_all_concat(self.0.kinds() + self.1.kinds() + self.2.kinds() + self.3.kinds() + self.4.kinds() + self.5.kinds() + self.6.kinds() + self.7.kinds() + self.8.kinds(), self.9.kinds());
            assert(config@ =~= start + in_all(self.0.kinds() + self.1.kinds() + self.2.kinds() + self.3.kinds() + self.4.kinds() + self.5.kinds() + self.6.kinds() + self.7.kinds() + self.8.kinds() + self.9.kinds()));
        }
        let config = self.10.mark_write(config);
        proof {
            lemma_in_all_concat(self.0.kinds() + self.1.kinds() + self.2.kinds() + self.3.kinds() + self.4.kinds() + self.5.kinds() + self.6.kinds() + self.7.kinds() + self.8.kinds() + self.9.kinds(), self.10.kinds());
            assert(config@ =~= start + in_all(self.0.kinds() + self.1.kinds() + self.2.kinds() + self.3.kinds() + self.4.kinds() + self.5.kinds() + self.6.kinds() + self.7.kinds() + self.8.kinds() + self.9.kinds() + self.10.kinds()));
        }
        let config = self.11.mark_write(config);
        proof {
            lemma_in_all_concat(self.0.kinds() + self.1.kinds() + self.2.kinds() + self.3.kinds() + self.4.kinds() + self.5.kinds() + self.6.kinds() + self.7.kinds() + self.8.kinds() + self.9.kinds() + self.10.kinds(), self.11.kinds());
            assert(config@ =~= start + in_all(self.0.kinds() + self.1.kinds() + self.2.kinds() + self.3.kinds() + self.4.kinds() + self.5.kinds() + self.6.kinds() + self.7.kinds() + self.8.kinds() + self.9.kinds() + self.10.kinds() + self.11.kinds()));
        }
        let config = self.12.mark_write(config);
        proof {
            lemma_in_all_concat(self.0.kinds() + self.1.kinds() + self.2.kinds() + self.3.kinds() + self.4.kinds() + self.5.kinds() + self.6.kinds() + self.7.kinds() + self.8.kinds() + self.9.kinds() + self.10.kinds() + self.11.kinds(), self.12.kinds());
            assert(config@ =~= start + in_all(self.0.kinds() + self.1.kinds() + self.2.kinds() + self.3.kinds() + self.4.kinds() + self.5.kinds() + self.6.kinds() + self.7.kinds() + self.8.kinds() + self.9.kinds() + self.10.kinds() + self.11.kinds() + self.12.kinds()));
        }
        config
    }
}

impl<T0: DataLabels, T1: DataLabels, T2: DataLabels, T3: DataLabels, T4: DataLabels, T5: DataLabels, T6: DataLabels, T7: DataLabels, T8: DataLabels, T9: DataLabels, T10: DataLabels, T11: DataLabels, T12: DataLabels, T13: DataLabels> DataLabels for (T0, T1, T2, T3, T4, T5, T6, T7, T8, T9, T10, T11, T12, T13) {
    open spec fn kinds(&self) -> Seq<TypeId> {
        self.0.kinds() + self.1.kinds() + self.2.kinds() + self.3.kinds() + self.4.kinds() + self.5.kinds() + self.6.kinds() + self.7.kinds() + self.8.kinds() + self.9.kinds() + self.10.kinds() + self.11.kinds() + self.12.kinds() + self.13.kinds()
    }

    fn mark_read(&self, config: TaskConfig) -> (r: TaskConfig) {
        let ghost start = config@;
        let config = self.0.mark_read(config);
        assert(config@ =~= start + after_all(self.0.kinds()));
        let config = self.1.mark_read(config);
        proof {
            lemma_after_all_concat(self.0.kinds(), self.1.kinds());
            assert(config@ =~= start + after_all(self.0.kinds() + self.1.kinds()));
        }
        let config = self.2.mark_read(config);
        proof {
            lemma_after_all_concat(self.0.kinds() + self.1.kinds(), self.2.kinds());
            assert(config@ =~= start + after_all(self.0.kinds() + self.1.kinds() + self.2.kinds()));
        }
        let config = self.3.mark_read(config);
        proof {
            lemma_after_all_concat(self.0.kinds() + self.1.kinds() + self.2.kinds(), self.3.kinds());
            assert(config@ =~= start + after_all(self.0.kinds() + self.1.kinds() + self.2.kinds() + self.3.kinds()));
        }
        let config = self.4.mark_read(config);
        proof {
            lemma_after_all_concat(self.0.kinds() + self.1.kinds() + self.2.kinds() + self.3.kinds(), self.4.kinds());
            assert(config@ =~= start + after_all(self.0.kinds() + self.1.kinds() + self.2.kinds() + self.3.kinds() + self.4.kinds()));
        }
        let config = self.5.mark_read(config);
        proof {
            lemma_after_all_concat(self.0.kinds() + self.1.kinds() + self.2.kinds() + self.3.kinds() + self.4.kinds(), self.5.kinds());
            assert(config@ =~= start + after_all(self.0.kinds() + self.1.kinds() + self.2.kinds() + self.3.kinds() + self.4.kinds() + self.5.kinds()));
        }
        let config = self.6.mark_read(config);
        proof {
            lemma_after_all_concat(self.0.kinds() + self.1.kinds() + self.2.kinds() + self.3.kinds() + self.4.kinds() + self.5.kinds(), self.6.kinds());
            assert(config@ =~= start + after_all(self.0.kinds() + self.1.kinds() + self.2.kinds() + self.3.kinds() + self.4.kinds() + self.5.kinds() + self.6.kinds()));
        }
        let config = self.7.mark_read(config);
        proof {
            lemma_after_all_concat(self.0.kinds() + self.1.kinds() + self.2.kinds() + self.3.kinds() + self.4.kinds() + self.5.kinds() + self.6.kinds(), self.7.kinds());
            assert(config@ =~= start + after_all(self.0.kinds() + self.1.kinds() + self.2.kinds() + self.3.kinds() + self.4.kinds() + self.5.kinds() + self.6.kinds() + self.7.kinds()));
        }
        let config = self.8.mark_read(config);
        proof {
            lemma_after_all_concat(self.0.kinds() + self.1.kinds() + self.2.kinds() + self.3.kinds() + self.4.kinds() + self.5.kinds() + self.6.kinds() + self.7.kinds(), self.8.kinds());
            assert(config@ =~= start + after_all(self.0.kinds() + self.1.kinds() + self.2.kinds() + self.3.kinds() + self.4.kinds() + self.5.kinds() + self.6.kinds() + self.7.kinds() + self.8.kinds()));
        }
        let config = self.9.mark_read(config);
        proof {
            lemma_after_all_concat(self.0.kinds() + self.1.kinds() + self.2.kinds() + self.3.kinds() + self.4.kinds() + self.5.kinds() + self.6.kinds() + self.7.kinds() + self.8.kinds(), self.9.kinds());
            assert(config@ =~= start + after_all(self.0.kinds() + self.1.kinds() + self.2.kinds() + self.3.kinds() + self.4.kinds() + self.5.kinds() + self.6.kinds() + self.7.kinds() + self.8.kinds() + self.9.kinds()));
        }
        let config = self.10.mark_read(config);
        proof {
            lemma_after_all_concat(self.0.kinds() + self.1.kinds() + self.2.kinds() + self.3.kinds() + self.4.kinds() + self.5.kinds() + self.6.kinds() + self.7.kinds() + self.8.kinds() + self.9.kinds(), self.10.kinds());
            assert(config@ =~= start + after_all(self.0.kinds() + self.1.kinds() + self.2.kinds() + self.3.kinds() + self.4.kinds() + self.5.kinds() + self.6.kinds() + self.7.kinds() + self.8.kinds() + self.9.kinds() + self.10.kinds()));
        }
        let config = self.11.mark_read(config);
        proof {
            lemma_after_all_concat(self.0.kinds() + self.1.kinds() + self.2.kinds() + self.3.kinds() + self.4.kinds() + self.5.kinds() + self.6.kinds() + self.7.kinds() + self.8.kinds() + self.9.kinds() + self.10.kinds(), self.11.kinds());
            assert(config@ =~= start + after_all(self.0.kinds() + self.1.kinds() + self.2.kinds() + self.3.kinds() + self.4.kinds() + self.5.kinds() + self.6.kinds() + self.7.kinds() + self.8.kinds() + self.9.kinds() + self.10.kinds() + self.11.kinds()));
        }
        let config = self.12.mark_read(config);
        proof {
            lemma_after_all_concat(self.0.kinds() + self.1.kinds() + self.2.kinds() + self.3.kinds() + self.4.kinds() + self.5.kinds() + self.6.kinds() + self.7.kinds() + self.8.kinds() + self.9.kinds() + self.10.kinds() + self.11.kinds(), self.12.kinds());
            assert(config@ =~= start + after_all(self.0.kinds() + self.1.kinds() + self.2.kinds() + self.3.kinds() + self.4.kinds() + self.5.kinds() + self.6.kinds() + self.7.kinds() + self.8.kinds() + self.9.kinds() + self.10.kinds() + self.11.kinds() + self.12.kinds()));
        }
        let config = self.13.mark_read(config);
        proof {
            lemma_after_all_concat(self.0.kinds() + self.1.kinds() + self.2.kinds() + self.3.kinds() + self.4.kinds() + self.5.kinds() + self.6.kinds() + self.7.kinds() + self.8.kinds() + self.9.kinds() + self.10.kinds() + self.11.kinds() + self.12.kinds(), self.13.kinds());
            assert(config@ =~= start + after_all(self.0.kinds() + self.1.kinds() + self.2.kinds() + self.3.kinds() + self.4.kinds() + self.5.kinds() + self.6.kinds() + self.7.kinds() + self.8.kinds() + self.9.kinds() + self.10.kinds() + self.11.kinds() + self.12.kinds() + self.13.kinds()));
        }
        config
    }

    fn mark_write(&self, config: TaskConfig) -> (r: TaskConfig) {
        let ghost start = config@;
        let config = self.0.mark_write(config);
        assert(config@ =~= start + in_all(self.0.kinds()));
        let config = self.1.mark_write(config);
        proof {
            lemma_in_all_concat(self.0.kinds(), self.1.kinds());
            assert(config@ =~= start + in_all(self.0.kinds() + self.1.kinds()));
        }
        let config = self.2.mark_write(config);
        proof {
            lemma_in_all_concat(self.0.kinds() + self.1.kinds(), self.2.kinds());
            assert(config@ =~= start + in_all(self.0.kinds() + self.1.kinds() + self.2.kinds()));
        }
        let config = self.3.mark_write(config);
        proof {
            lemma_in_all_concat(self.0.kinds() + self.1.kinds() + self.2.kinds(), self.3.kinds());
            assert(config@ =~= start + in_all(self.0.kinds() + self.1.kinds() + self.2.kinds() + self.3.kinds()));
        }
        let config = self.4.mark_write(config);
        proof {
            lemma_in_all_concat(self.0.kinds() + self.1.kinds() + self.2.kinds() + self.3.kinds(), self.4.kinds());
            assert(config@ =~= start + in_all(self.0.kinds() + self.1.kinds() + self.2.kinds() + self.3.kinds() + self.4.kinds()));
        }
        let config = self.5.mark_write(config);
        proof {
            lemma_in_all_concat(self.0.kinds() + self.1.kinds() + self.2.kinds() + self.3.kinds() + self.4.kinds(), self.5.kinds());
            assert(config@ =~= start + in_all(self.0.kinds() + self.1.kinds() + self.2.kinds() + self.3.kinds() + self.4.kinds() + self.5.kinds()));
        }
        let config = self.6.mark_write(config);
        proof {
            lemma_in_all_concat(self.0.kinds() + self.1.kinds() + self.2.kinds() + self.3.kinds() + self.4.kinds() + self.5.kinds(), self.6.kinds());
            assert(config@ =~= start + in_all(self.0.kinds() + self.1.kinds() + self.2.kinds() + self.3.kinds() + self.4.kinds() + self.5.kinds() + self.6.kinds()));
        }
        let config = self.7.mark_write(config);
        proof {
            lemma_in_all_concat(self.0.kinds() + self.1.kinds() + self.2.kinds() + self.3.kinds() + self.4.kinds() + self.5.kinds() + self.6.kinds(), self.7.kinds());
            assert(config@ =~= start + in_all(self.0.kinds() + self.1.kinds() + self.2.kinds() + self.3.kinds() + self.4.kinds() + self.5.kinds() + self.6.kinds() + self.7.kinds()));
        }
        let config = self.8.mark_write(config);
        proof {
            lemma_in_all_concat(self.0.kinds() + self.1.kinds() + self.2.kinds() + self.3.kinds() + self.4.kinds() + self.5.kinds() + self.6.kinds() + self.7.kinds(), self.8.kinds());
            assert(config@ =~= start + in_all(self.0.kinds() + self.1.kinds() + self.2.kinds() + self.3.kinds() + self.4.kinds() + self.5.kinds() + self.6.kinds() + self.7.kinds() + self.8.kinds()));
        }
        let config = self.9.mark_write(config);
        proof {
            lemma_in_all_concat(self.0.kinds() + self.1.kinds() + self.2.kinds() + self.3.kinds() + self.4.kinds() + self.5.kinds() + self.6.kinds() + self.7.kinds() + self.8.kinds(), self.9.kinds());
            assert(config@ =~= start + in_all(self.0.kinds() + self.1.kinds() + self.2.kinds() + self.3.kinds() + self.4.kinds() + self.5.kinds() + self.6.kinds() + self.7.kinds() + self.8.kinds() + self.9.kinds()));
        }
        let config = self.10.mark_write(config);
        proof {
            lemma_in_all_concat(self.0.kinds() + self.1.kinds() + self.2.kinds() + self.3.kinds() + self.4.kinds() + self.5.kinds() + self.6.kinds() + self.7.kinds() + self.8.kinds() + self.9.kinds(), self.10.kinds());
            assert(config@ =~= start + in_all(self.0.kinds() + self.1.kinds() + self.2.kinds() + self.3.kinds() + self.4.kinds() + self.5.kinds() + self.6.kinds() + self.7.kinds() + self.8.kinds() + self.9.kinds() + self.10.kinds()));
        }
        let config = self.11.mark_write(config);
        proof {
            lemma_in_all_concat(self.0.kinds() + self.1.kinds() + self.2.kinds() + self.3.kinds() + self.4.kinds() + self.5.kinds() + self.6.kinds() + self.7.kinds() + self.8.kinds() + self.9.kinds() + self.10.kinds(), self.11.kinds());
            assert(config@ =~= start + in_all(self.0.kinds() + self.1.kinds() + self.2.kinds() + self.3.kinds() + self.4.kinds() + self.5.kinds() + self.6.kinds() + self.7.kinds() + self.8.kinds() + self.9.kinds() + self.10.kinds() + self.11.kinds()));
        }
        let config = self.12.mark_write(config);
        proof {
            lemma_in_all_concat(self.0.kinds() + self.1.kinds() + self.2.kinds() + self.3.kinds() + self.4.kinds() + self.5.kinds() + self.6.kinds() + self.7.kinds() + self.8.kinds() + self.9.kinds() + self.10.kinds() + self.11.kinds(), self.12.kinds());
            assert(config@ =~= start + in_all(self.0.kinds() + self.1.kinds() + self.2.kinds() + self.3.kinds() + self.4.kinds() + self.5.kinds() + self.6.kinds() + self.7.kinds() + self.8.kinds() + self.9.kinds() + self.10.kinds() + self.11.kinds() + self.12.kinds()));
        }
        let config = self.13.mark_write(config);
        proof {
            lemma_in_all_concat(self.0.kinds() + self.1.kinds() + self.2.kinds() + self.3.kinds() + self.4.kinds() + self.5.kinds() + self.6.kinds() + self.7.kinds() + self.8.kinds() + self.9.kinds() + self.10.kinds() + self.11.kinds() + self.12.kinds(), self.13.kinds());
            assert(config@ =~= start + in_all(self.0.kinds() + self.1.kinds() + self.2.kinds() + self.3.kinds() + self.4.kinds() + self.5.kinds() + self.6.kinds() + self.7.kinds() + self.8.kinds() + self.9.kinds() + self.10.kinds() + self.11.kinds() + self.12.kinds() + self.13.kinds()));
        }
        config
    }
}

impl<T0: DataLabels, T1: DataLabels, T2: DataLabels, T3: DataLabels, T4: DataLabels, T5: DataLabels, T6: DataLabels, T7: DataLabels, T8: DataLabels, T9: DataLabels, T10: DataLabels, T11: DataLabels, T12: DataLabels, T13: DataLabels, T14: DataLabels> DataLabels for (T0, T1, T2, T3, T4, T5, T6, T7, T8, T9, T10, T11, T12, T13, T14) {
    open spec fn kinds(&self) -> Seq<TypeId> {
        self.0.kinds() + self.1.kinds() + self.2.kinds() + self.3.kinds() + self.4.kinds() + self.5.kinds() + self.6.kinds() + self.7.kinds() + self.8.kinds() + self.9.kinds() + self.10.kinds() + self.11.kinds() + self.12.kinds() + self.13.kinds() + self.14.kinds()
    }

    fn mark_read(&self, config: TaskConfig) -> (r: TaskConfig) {
        let ghost start = config@;
        let config = self.0.mark_read(config);
        assert(config@ =~= start + after_all(self.0.kinds()));
        let config = self.1.mark_read(config);
        proof {
            lemma_after_all_concat(self.0.kinds(), self.1.kinds());
            assert(config@ =~= start + after_all(self.0.kinds() + self.1.kinds()));
        }
        let config = self.2.mark_read(config);
        proof {
            lemma_after_all_concat(self.0.kinds() + self.1.kinds(), self.2.kinds());
            assert(config@ =~= start + after_all(self.0.kinds() + self.1.kinds() + self.2.kinds()));
        }
        let config = self.3.mark_read(config);
        proof {
            lemma_after_all_concat(self.0.kinds() + self.1.kinds() + self.2.kinds(), self.3.kinds());
            assert(config@ =~= start + after_all(self.0.kinds() + self.1.kinds() + self.2.kinds() + self.3.kinds()));
        }
        let config = self.4.mark_read(config);
        proof {
            lemma_after_all_concat(self.0.kinds() + self.1.kinds() + self.2.kinds() + self.3.kinds(), self.4.kinds());
            assert(config@ =~= start + after_all(self.0.kinds() + self.1.kinds() + self.2.kinds() + self.3.kinds() + self.4.kinds()));
        }
        let config = self.5.mark_read(config);
        proof {
            lemma_after_all_concat(self.0.kinds() + self.1.kinds() + self.2.kinds() + self.3.kinds() + self.4.kinds(), self.5.kinds());
            assert(config@ =~= start + after_all(self.0.kinds() + self.1.kinds() + self.2.kinds() + self.3.kinds() + self.4.kinds() + self.5.kinds()));
        }
        let config = self.6.mark_read(config);
        proof {
            lemma_after_all_concat(self.0.kinds() + self.1.kinds() + self.2.kinds() + self.3.kinds() + self.4.kinds() + self.5.kinds(), self.6.kinds());
            assert(config@ =~= start + after_all(self.0.kinds() + self.1.kinds() + self.2.kinds() + self.3.kinds() + self.4.kinds() + self.5.kinds() + self.6.kinds()));
        }
        let config = self.7.mark_read(config);
        proof {
            lemma_after_all_concat(self.0.kinds() + self.1.kinds() + self.2.kinds() + self.3.kinds() + self.4.kinds() + self.5.kinds() + self.6.kinds(), self.7.kinds());
            assert(config@ =~= start + after_all(self.0.kinds() + self.1.kinds() + self.2.kinds() + self.3.kinds() + self.4.kinds() + self.5.kinds() + self.6.kinds() + self.7.kinds()));
        }
        let config = self.8.mark_read(config);
        proof {
            lemma_after_all_concat(self.0.kinds() + self.1.kinds() + self.2.kinds() + self.3.kinds() + self.4.kinds() + self.5.kinds() + self.6.kinds() + self.7.kinds(), self.8.kinds());
            assert(config@ =~= start + after_all(self.0.kinds() + self.1.kinds() + self.2.kinds() + self.3.kinds() + self.4.kinds() + self.5.kinds() + self.6.kinds() + self.7.kinds() + self.8.kinds()));
        }
        let config = self.9.mark_read(config);
        proof {
            lemma_after_all_concat(self.0.kinds() + self.1.kinds() + self.2.kinds() + self.3.kinds() + self.4.kinds() + self.5.kinds() + self.6.kinds() + self.7.kinds() + self.8.kinds(), self.9.kinds());
            assert(config@ =~= start + after_all(self.0.kinds() + self.1.kinds() + self.2.kinds() + self.3.kinds() + self.4.kinds() + self.5.kinds() + self.6.kinds() + self.7.kinds() + self.8.kinds() + self.9.kinds()));
        }
        let config = self.10.mark_read(config);
        proof {
            lemma_after_all_concat(self.0.kinds() + self.1.kinds() + self.2.kinds() + self.3.kinds() + self.4.kinds() + self.5.kinds() + self.6.kinds() + self.7.kinds() + self.8.kinds() + self.9.kinds(), self.10.kinds());
            assert(config@ =~= start + after_all(self.0.kinds() + self.1.kinds() + self.2.kinds() + self.3.kinds() + self.4.kinds() + self.5.kinds() + self.6.kinds() + self.7.kinds() + self.8.kinds() + self.9.kinds() + self.10.kinds()));
        }
        let config = self.11.mark_read(config);
        proof {
            lemma_after_all_concat(self.0.kinds() + self.1.kinds() + self.2.kinds() + self.3.kinds() + self.4.kinds() + self.5.kinds() + self.6.kinds() + self.7.kinds() + self.8.kinds() + self.9.kinds() + self.10.kinds(), self.11.kinds());
            assert(config@ =~= start + after_all(self.0.kinds() + self.1.kinds() + self.2.kinds() + self.3.kinds() + self.4.kinds() + self.5.kinds() + self.6.kinds() + self.7.kinds() + self.8.kinds() + self.9.kinds() + self.10.kinds() + self.11.kinds()));
        }
        let config = self.12.mark_read(config);
        proof {
            lemma_after_all_concat(self.0.kinds() + self.1.kinds() + self.2.kinds() + self.3.kinds() + self.4.kinds() + self.5.kinds() + self.6.kinds() + self.7.kinds() + self.8.kinds() + self.9.kinds() + self.10.kinds() + self.11.kinds(), self.12.kinds());
            assert(config@ =~= start + after_all(self.0.kinds() + self.1.kinds() + self.2.kinds() + self.3.kinds() + self.4.kinds() + self.5.kinds() + self.6.kinds() + self.7.kinds() + self.8.kinds() + self.9.kinds() + self.10.kinds() + self.11.kinds() + self.12.kinds()));
        }
        let config = self.13.mark_read(config);
        proof {
            lemma_after_all_concat(self.0.kinds() + self.1.kinds() + self.2.kinds() + self.3.kinds() + self.4.kinds() + self.5.kinds() + self.6.kinds() + self.7.kinds() + self.8.kinds() + self.9.kinds() + self.10.kinds() + self.11.kinds() + self.12.kinds(), self.13.kinds());
            assert(config@ =~= start + after_all(self.0.kinds() + self.1.kinds() + self.2.kinds() + self.3.kinds() + self.4.kinds() + self.5.kinds() + self.6.kinds() + self.7.kinds() + self.8.kinds() + self.9.kinds() + self.10.kinds() + self.11.kinds() + self.12.kinds() + self.13.kinds()));
        }
        let config = self.14.mark_read(config);
        proof {
            lemma_after_all_concat(self.0.kinds() + self.1.kinds() + self.2.kinds() + self.3.kinds() + self.4.kinds() + self.5.kinds() + self.6.kinds() + self.7.kinds() + self.8.kinds() + self.9.kinds() + self.10.kinds() + self.11.kinds() + self.12.kinds() + self.13.kinds(), self.14.kinds());
            assert(config@ =~= start + after_all(self.0.kinds() + self.1.kinds() + self.2.kinds() + self.3.kinds() + self.4.kinds() + self.5.kinds() + self.6.kinds() + self.7.kinds() + self.8.kinds() + self.9.kinds() + self.10.kinds() + self.11.kinds() + self.12.kinds() + self.13.kinds() + self.14.kinds()));
        }
        config
    }

    fn mark_write(&self, config: TaskConfig) -> (r: TaskConfig) {
        let ghost start = config@;
        let config = self.0.mark_write(config);
        assert(config@ =~= start + in_all(self.0.kinds()));
        let config = self.1.mark_write(config);
        proof {
            lemma_in_all_concat(self.0.kinds(), self.1.kinds());
            assert(config@ =~= start + in_all(self.0.kinds() + self.1.kinds()));
        }
        let config = self.2.mark_write(config);
        proof {
            lemma_in_all_concat(self.0.kinds() + self.1.kinds(), self.2.kinds());
            assert(config@ =~= start + in_all(self.0.kinds() + self.1.kinds() + self.2.kinds()));
        }
        let config = self.3.mark_write(config);
        proof {
            lemma_in_all_concat(self.0.kinds() + self.1.kinds() + self.2.kinds(), self.3.kinds());
            assert(config@ =~= start + in_all(self.0.kinds() + self.1.kinds() + self.2.kinds() + self.3.kinds()));
        }
        let config = self.4.mark_write(config);
        proof {
            lemma_in_all_concat(self.0.kinds() + self.1.kinds() + self.2.kinds() + self.3.kinds(), self.4.kinds());
            assert(config@ =~= start + in_all(self.0.kinds() + self.1.kinds() + self.2.kinds() + self.3.kinds() + self.4.kinds()));
        }
        let config = self.5.mark_write(config);
        proof {
            lemma_in_all_concat(self.0.kinds() + self.1.kinds() + self.2.kinds() + self.3.kinds() + self.4.kinds(), self.5.kinds());
            assert(config@ =~= start + in_all(self.0.kinds() + self.1.kinds() + self.2.kinds() + self.3.kinds() + self.4.kinds() + self.5.kinds()));
        }
        let config = self.6.mark_write(config);
        proof {
            lemma_in_all_concat(self.0.kinds() + self.1.kinds() + self.2.kinds() + self.3.kinds() + self.4.kinds() + self.5.kinds(), self.6.kinds());
            assert(config@ =~= start + in_all(self.0.kinds() + self.1.kinds() + self.2.kinds() + self.3.kinds() + self.4.kinds() + self.5.kinds() + self.6.kinds()));
        }
        let config = self.7.mark_write(config);
        proof {
            lemma_in_all_concat(self.0.kinds() + self.1.kinds() + self.2.kinds() + self.3.kinds() + self.4.kinds() + self.5.kinds() + self.6.kinds(), self.7.kinds());
            assert(config@ =~= start + in_all(self.0.kinds() + self.1.kinds() + self.2.kinds() + self.3.kinds() + self.4.kinds() + self.5.kinds() + self.6.kinds() + self.7.kinds()));
        }
        let config = self.8.mark_write(config);
        proof {
            lemma_in_all_concat(self.0.kinds() + self.1.kinds() + self.2.kinds() + self.3.kinds() + self.4.kinds() + self.5.kinds() + self.6.kinds() + self.7.kinds(), self.8.kinds());
            assert(config@ =~= start + in_all(self.0.kinds() + self.1.kinds() + self.2.kinds() + self.3.kinds() + self.4.kinds() + self.5.kinds() + self.6.kinds() + self.7.kinds() + self.8.kinds()));
        }
        let config = self.9.mark_write(config);
        proof {
            lemma_in_all_concat(self.0.kinds() + self.1.kinds() + self.2.kinds() + self.3.kinds() + self.4.kinds() + self.5.kinds() + self.6.kinds() + self.7.kinds() + self.8.kinds(), self.9.kinds());
            assert(config@ =~= start + in_all(self.0.kinds() + self.1.kinds() + self.2.kinds() + self.3.kinds() + self.4.kinds() + self.5.kinds() + self.6.kinds() + self.7.kinds() + self.8.kinds() + self.9.kinds()));
        }
        let config = self.10.mark_write(config);
        proof {
            lemma_in_all_concat(self.0.kinds() + self.1.kinds() + self.2.kinds() + self.3.kinds() + self.4.kinds() + self.5.kinds() + self.6.kinds() + self.7.kinds() + self.8.kinds() + self.9.kinds(), self.10.kinds());
            assert(config@ =~= start + in_all(self.0.kinds() + self.1.kinds() + self.2.kinds() + self.3.kinds() + self.4.kinds() + self.5.kinds() + self.6.kinds() + self.7.kinds() + self.8.kinds() + self.9.kinds() + self.10.kinds()));
        }
        let config = self.11.mark_write(config);
        proof {
            lemma_in_all_concat(self.0.kinds() + self.1.kinds() + self.2.kinds() + self.3.kinds() + self.4.kinds() + self.5.kinds() + self.6.kinds() + self.7.kinds() + self.8.kinds() + self.9.kinds() + self.10.kinds(), self.11.kinds());
            assert(config@ =~= start + in_all(self.0.kinds() + self.1.kinds() + self.2.kinds() + self.3.kinds() + self.4.kinds() + self.5.kinds() + self.6.kinds() + self.7.kinds() + self.8.kinds() + self.9.kinds() + self.10.kinds() + self.11.kinds()));
        }
        let config = self.12.mark_write(config);
        proof {
            lemma_in_all_concat(self.0.kinds() + self.1.kinds() + self.2.kinds() + self.3.kinds() + self.4.kinds() + self.5.kinds() + self.6.kinds() + self.7.kinds() + self.8.kinds() + self.9.kinds() + self.10.kinds() + self.11.kinds(), self.12.kinds());
            assert(config@ =~= start + in_all(self.0.kinds() + self.1.kinds() + self.2.kinds() + self.3.kinds() + self.4.kinds() + self.5.kinds() + self.6.kinds() + self.7.kinds() + self.8.kinds() + self.9.kinds() + self.10.kinds() + self.11.kinds() + self.12.kinds()));
        }
        let config = self.13.mark_write(config);
        proof {
            lemma_in_all_concat(self.0.kinds() + self.1.kinds() + self.2.kinds() + self.3.kinds() + self.4.kinds() + self.5.kinds() + self.6.kinds() + self.7.kinds() + self.8.kinds() + self.9.kinds() + self.10.kinds() + self.11.kinds() + self.12.kinds(), self.13.kinds());
            assert(config@ =~= start + in_all(self.0.kinds() + self.1.kinds() + self.2.kinds() + self.3.kinds() + self.4.kinds() + self.5.kinds() + self.6.kinds() + self.7.kinds() + self.8.kinds() + self.9.kinds() + self.10.kinds() + self.11.kinds() + self.12.kinds() + self.13.kinds()));
        }
        let config = self.14.mark_write(config);
        proof {
            lemma_in_all_concat(self.0.kinds() + self.1.kinds() + self.2.kinds() + self.3.kinds() + self.4.kinds() + self.5.kinds() + self.6.kinds() + self.7.kinds() + self.8.kinds() + self.9.kinds() + self.10.kinds() + self.11.kinds() + self.12.kinds() + self.13.kinds(), self.14.kinds());
            assert(config@ =~= start + in_all(self.0.kinds() + self.1.kinds() + self.2.kinds() + self.3.kinds() + self.4.kinds() + self.5.kinds() + self.6.kinds() + self.7.kinds() + self.8.kinds() + self.9.kinds() + self.10.kinds() + self.11.kinds() + self.12.kinds() + self.13.kinds() + self.14.kinds()));
        }
        config
    }
}

} // verus!
