//! The products table, as the operations expect it to behave.
//!
//! The table itself lives with the storage engine. What is written down
//! here is the contract that the operations rely on: which rows the table
//! holds, and how running one statement changes them and is answered. The
//! laws of the operations are proved against this contract.

use vstd::prelude::*;

use crate::product::ProductView;
use crate::store::{RowView, StatementView, StoreOutcomeView};

verus! {

/// The rows of the products table, by identifier, and the largest
/// identifier that was ever assigned.
pub ghost struct Table {
    pub rows: Map<i64, RowView>,
    pub last_id: int,
}

impl Table {
    /// The table holds finitely many rows, none under an identifier that
    /// is yet to be assigned.
    pub open spec fn wf(self) -> bool {
        &&& self.rows.dom().finite()
        &&& forall|id: i64| #[trigger] self.rows.contains_key(id) ==> id <= self.last_id
    }

    /// The product that is read from the row under `id`.
    pub open spec fn product(self, id: i64) -> ProductView {
        let row = self.rows[id];
        ProductView {
            id: Some(id),
            name: row.name,
            price: row.price,
            description: row.description,
            stock: row.stock,
        }
    }

    /// The identifier was assigned once and its row is gone.
    pub open spec fn retired(self, id: i64) -> bool {
        id <= self.last_id && !self.rows.contains_key(id)
    }

    /// `product` is what is read from one of the rows.
    pub open spec fn holds(self, product: ProductView) -> bool {
        &&& product.id matches Some(id)
        &&& self.rows.contains_key(id)
        &&& product == self.product(id)
    }

    /// `products` lists the table: every row once, in whatever order.
    pub open spec fn listed_as(self, products: Seq<ProductView>) -> bool {
        &&& forall|i: int| 0 <= i < products.len() ==> self.holds(#[trigger] products[i])
        &&& forall|i: int, j: int|
            0 <= i < j < products.len() ==> (#[trigger] products[i]).id != (
            #[trigger] products[j]).id
        &&& forall|id: i64| #[trigger]
            self.rows.contains_key(id) ==> exists|i: int|
                0 <= i < products.len() && (#[trigger] products[i]).id == Some(id)
    }

    /// The table holds, under `id`, a row with the values of `row`, and is
    /// otherwise as `before` was.
    pub open spec fn holds_written(self, before: Table, id: i64, row: RowView) -> bool {
        &&& self.rows.contains_key(id)
        &&& self.rows[id].same_values(row)
        &&& self.rows == before.rows.insert(id, self.rows[id])
    }

    /// Running the insert `statement` on this table is answered by
    /// `outcome` and leaves `after`. A completed insert assigns an
    /// identifier above all that were assigned before and writes the row
    /// under it; one that did not complete changes nothing.
    pub open spec fn inserts(
        self,
        statement: StatementView,
        outcome: StoreOutcomeView<i64>,
        after: Table,
    ) -> bool {
        &&& statement matches StatementView::Insert { row }
        &&& match outcome {
            StoreOutcomeView::Completed(id) => {
                &&& self.last_id < id
                &&& after.last_id == id
                &&& after.holds_written(self, id, row)
            },
            _ => after == self,
        }
    }

    /// Running the listing `statement` on this table is answered by
    /// `outcome` and leaves `after`. The table is left as it was; a completed
    /// listing answers with every row once.
    pub open spec fn lists(
        self,
        statement: StatementView,
        outcome: StoreOutcomeView<Seq<ProductView>>,
        after: Table,
    ) -> bool {
        &&& statement is SelectAll
        &&& after == self
        &&& outcome matches StoreOutcomeView::Completed(products) ==> self.listed_as(products)
    }

    /// Running the fetch `statement` on this table is answered by
    /// `outcome` and leaves `after`. The table is left as it was; a completed
    /// fetch answers with the row under the identifier, or with none where
    /// the table holds none.
    pub open spec fn fetches(
        self,
        statement: StatementView,
        outcome: StoreOutcomeView<Option<ProductView>>,
        after: Table,
    ) -> bool {
        &&& statement matches StatementView::SelectById { id }
        &&& after == self
        &&& outcome matches StoreOutcomeView::Completed(found) ==> found == if self.rows.contains_key(
            id,
        ) {
            Some(self.product(id))
        } else {
            None
        }
    }

    /// Running the update `statement` on this table is answered by
    /// `outcome` and leaves `after`. A completed update of a row that the
    /// table holds overwrites it and answers 1; of any other identifier it
    /// changes nothing and answers 0. One that did not complete changes
    /// nothing.
    pub open spec fn updates(
        self,
        statement: StatementView,
        outcome: StoreOutcomeView<usize>,
        after: Table,
    ) -> bool {
        &&& statement matches StatementView::Update { id, row }
        &&& match outcome {
            StoreOutcomeView::Completed(changed) => if self.rows.contains_key(id) {
                &&& changed == 1
                &&& after.last_id == self.last_id
                &&& after.holds_written(self, id, row)
            } else {
                changed == 0 && after == self
            },
            _ => after == self,
        }
    }

    /// Running the delete `statement` on this table is answered by
    /// `outcome` and leaves `after`. A completed delete of a row that the
    /// table holds removes it and answers 1; of any other identifier it
    /// changes nothing and answers 0. One that did not complete changes
    /// nothing. The identifier of a removed row is not assigned again.
    pub open spec fn deletes(
        self,
        statement: StatementView,
        outcome: StoreOutcomeView<usize>,
        after: Table,
    ) -> bool {
        &&& statement matches StatementView::Delete { id }
        &&& match outcome {
            StoreOutcomeView::Completed(removed) => if self.rows.contains_key(id) {
                &&& removed == 1
                &&& after.last_id == self.last_id
                &&& after.rows == self.rows.remove(id)
            } else {
                removed == 0 && after == self
            },
            _ => after == self,
        }
    }

    /// Some one statement, run on this table, leaves `after`.
    pub open spec fn steps_to(self, after: Table) -> bool {
        ||| exists|statement: StatementView, outcome: StoreOutcomeView<i64>|
            self.inserts(statement, outcome, after)
        ||| exists|statement: StatementView, outcome: StoreOutcomeView<Seq<ProductView>>|
            self.lists(statement, outcome, after)
        ||| exists|statement: StatementView, outcome: StoreOutcomeView<Option<ProductView>>|
            self.fetches(statement, outcome, after)
        ||| exists|statement: StatementView, outcome: StoreOutcomeView<usize>|
            self.updates(statement, outcome, after)
        ||| exists|statement: StatementView, outcome: StoreOutcomeView<usize>|
            self.deletes(statement, outcome, after)
    }
}

/// The tables follow one another, each by one statement run on the one
/// before: the statements were run one at a time.
pub open spec fn is_history(tables: Seq<Table>) -> bool {
    forall|i: int| 0 <= i < tables.len() - 1 ==> (#[trigger] tables[i]).steps_to(tables[i + 1])
}

/// One statement keeps a well-formed table well-formed, takes back no
/// identifier, and brings back no row that was removed.
pub proof fn lemma_step(before: Table, after: Table)
    requires
        before.wf(),
        before.steps_to(after),
    ensures
        after.wf(),
        before.last_id <= after.last_id,
        forall|id: i64| before.retired(id) ==> after.retired(id),
{
}

/// What one statement keeps, a history keeps from its first table to its
/// last.
pub proof fn lemma_history(tables: Seq<Table>)
    requires
        tables.len() > 0,
        tables.first().wf(),
        is_history(tables),
    ensures
        tables.last().wf(),
        tables.first().last_id <= tables.last().last_id,
        forall|id: i64| tables.first().retired(id) ==> tables.last().retired(id),
    decreases tables.len(),
{
    if tables.len() > 1 {
        let earlier = tables.drop_last();
        assert(is_history(earlier)) by {
            assert forall|i: int| 0 <= i < earlier.len() - 1 implies (#[trigger] earlier[i]).steps_to(
                earlier[i + 1],
            ) by {
                assert(tables[i].steps_to(tables[i + 1]));
            }
        }
        lemma_history(earlier);
        assert(tables[tables.len() - 2].steps_to(tables[tables.len() - 2 + 1]));
        lemma_step(earlier.last(), tables.last());
    }
}

} // verus!
