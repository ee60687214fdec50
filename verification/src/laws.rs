//! What holds of the operations, whatever is asked of them.
//!
//! Each law speaks of the two halves of operations and of the table they
//! run their statements on, and holds of every table that keeps the
//! contract of the products table.

use vstd::prelude::*;

use crate::error::ApiErrorView;
use crate::handlers::{
    create_product_done_spec, create_product_spec, delete_product_done_spec, delete_product_spec,
    get_product_by_id_done_spec, get_product_by_id_spec, get_products_done_spec,
    get_products_spec, update_product_done_spec, update_product_spec, DELETED_MESSAGE,
    UPDATED_MESSAGE,
};
use crate::product::{is_blank, ProductView};
use crate::response::ApiResponseView;
use crate::store::{RowView, StatementView, StoreOutcomeView};
use crate::table::{is_history, lemma_history, lemma_step, Table};

verus! {

/// A valid product that was created is read back under the identifier
/// that the creation answered with: the same product in every field but
/// the identifier, which the table assigned.
pub proof fn law_create_then_get(
    product: ProductView,
    before: Table,
    created: StoreOutcomeView<i64>,
    between: Table,
    fetched: StoreOutcomeView<Option<ProductView>>,
    after: Table,
    id: i64,
)
    requires
        before.wf(),
        product.valid(),
        create_product_spec(product) matches Ok(insert) && before.inserts(insert, created, between),
        created == StoreOutcomeView::Completed(id),
        between.fetches(get_product_by_id_spec(id), fetched, after),
        fetched is Completed,
    ensures
        create_product_done_spec(created) == Ok::<_, ApiErrorView>(
            ApiResponseView { success: true, data: id },
        ),
        get_product_by_id_done_spec(fetched) matches Ok(response) && response.success
            && response.data.id == Some(id) && response.data.row().same_values(product.row()),
{
}

/// A row that create or update wrote keeps the rules at the moment it is
/// written: its name is not blank, its price is at or above zero, and so
/// is its stock.
pub proof fn law_written_row_keeps_the_rules(
    id: i64,
    product: ProductView,
    before: Table,
    after: Table,
)
    requires
        before.wf(),
        ({
            ||| create_product_spec(product) matches Ok(insert) && before.inserts(
                insert,
                StoreOutcomeView::Completed(id),
                after,
            )
            ||| update_product_spec(id, product) matches Ok(update) && before.updates(
                update,
                StoreOutcomeView::Completed(1),
                after,
            )
        }),
    ensures
        after.rows.contains_key(id),
        after.product(id).valid(),
        !is_blank(after.rows[id].name),
        after.rows[id].price.non_negative(),
        after.rows[id].stock >= 0,
{
}

/// A product with a blank name, a price below zero or a stock below zero
/// is refused as a bad request by create and by update alike, before any
/// statement is named: nothing is run, so no row is written or changed.
pub proof fn law_invalid_product_is_refused(id: i64, product: ProductView)
    requires
        is_blank(product.name) || product.price.negative() || product.stock < 0,
    ensures
        product.rejection() is Some,
        create_product_spec(product) == Err::<StatementView, _>(
            ApiErrorView::BadRequest(product.rejection()->0),
        ),
        update_product_spec(id, product) == Err::<StatementView, _>(
            ApiErrorView::BadRequest(product.rejection()->0),
        ),
{
}

/// Fetching an identifier under which the table holds no row answers
/// "not found".
pub proof fn law_get_missing_is_not_found(
    id: i64,
    table: Table,
    fetched: StoreOutcomeView<Option<ProductView>>,
    after: Table,
)
    requires
        !table.rows.contains_key(id),
        table.fetches(get_product_by_id_spec(id), fetched, after),
        fetched is Completed,
    ensures
        get_product_by_id_done_spec(fetched) == Err::<ApiResponseView<ProductView>, _>(
            ApiErrorView::NotFound,
        ),
        after == table,
{
}

/// Removing an identifier under which the table holds no row answers
/// "not found" and leaves the table as it was.
pub proof fn law_delete_missing_is_not_found(
    id: i64,
    table: Table,
    deleted: StoreOutcomeView<usize>,
    after: Table,
)
    requires
        !table.rows.contains_key(id),
        table.deletes(delete_product_spec(id), deleted, after),
        deleted is Completed,
    ensures
        delete_product_done_spec(deleted) == Err::<ApiResponseView<Seq<char>>, _>(
            ApiErrorView::NotFound,
        ),
        after == table,
{
}

/// Updating an identifier under which the table holds no row answers
/// "not found" and leaves the table as it was.
pub proof fn law_update_missing_is_not_found(
    id: i64,
    product: ProductView,
    table: Table,
    updated: StoreOutcomeView<usize>,
    after: Table,
)
    requires
        !table.rows.contains_key(id),
        product.valid(),
        update_product_spec(id, product) matches Ok(update) && table.updates(
            update,
            updated,
            after,
        ),
        updated is Completed,
    ensures
        update_product_done_spec(updated) == Err::<ApiResponseView<Seq<char>>, _>(
            ApiErrorView::NotFound,
        ),
        after == table,
{
}

/// Once a product was removed, removing it again answers "not found",
/// first time and every time, whatever was run on the table in between:
/// `tables` is the history from the first removal to the later one.
pub proof fn law_delete_again_is_not_found(
    id: i64,
    before: Table,
    deleted: StoreOutcomeView<usize>,
    tables: Seq<Table>,
    deleted_again: StoreOutcomeView<usize>,
    after: Table,
)
    requires
        before.wf(),
        tables.len() > 0,
        before.deletes(delete_product_spec(id), deleted, tables.first()),
        delete_product_done_spec(deleted) is Ok,
        is_history(tables),
        tables.last().deletes(delete_product_spec(id), deleted_again, after),
        deleted_again is Completed,
    ensures
        delete_product_done_spec(deleted_again) == Err::<ApiResponseView<Seq<char>>, _>(
            ApiErrorView::NotFound,
        ),
        after == tables.last(),
{
    assert(before.rows.contains_key(id));
    assert(tables.first().retired(id));
    lemma_history(tables);
}

/// Listing a table that holds no row answers with the empty list, as a
/// success.
pub proof fn law_list_of_empty_table(
    table: Table,
    listed: StoreOutcomeView<Seq<ProductView>>,
    after: Table,
)
    requires
        table.rows == Map::<i64, RowView>::empty(),
        table.lists(get_products_spec(), listed, after),
        listed is Completed,
    ensures
        get_products_done_spec(listed) == Ok::<_, ApiErrorView>(
            ApiResponseView { success: true, data: Seq::<ProductView>::empty() },
        ),
{
    let products = listed->Completed_0;
    if products.len() > 0 {
        assert(table.holds(products[0]));
    }
    assert(products =~= Seq::<ProductView>::empty());
}

/// A valid product that overwrote a row is read back under the row's
/// identifier, with all four fields as the update set them.
pub proof fn law_update_then_get(
    id: i64,
    product: ProductView,
    before: Table,
    updated: StoreOutcomeView<usize>,
    between: Table,
    fetched: StoreOutcomeView<Option<ProductView>>,
    after: Table,
)
    requires
        before.rows.contains_key(id),
        product.valid(),
        update_product_spec(id, product) matches Ok(update) && before.updates(
            update,
            updated,
            between,
        ),
        updated is Completed,
        between.fetches(get_product_by_id_spec(id), fetched, after),
        fetched is Completed,
    ensures
        update_product_done_spec(updated) == Ok::<_, ApiErrorView>(
            ApiResponseView { success: true, data: UPDATED_MESSAGE@ },
        ),
        get_product_by_id_done_spec(fetched) matches Ok(response) && response.success
            && response.data.id == Some(id) && response.data.row().same_values(product.row()),
{
}

/// A product that the table holds is removed with the message of a
/// removal, and is not found afterwards.
pub proof fn law_delete_then_get(
    id: i64,
    before: Table,
    deleted: StoreOutcomeView<usize>,
    between: Table,
    fetched: StoreOutcomeView<Option<ProductView>>,
    after: Table,
)
    requires
        before.rows.contains_key(id),
        before.deletes(delete_product_spec(id), deleted, between),
        deleted is Completed,
        between.fetches(get_product_by_id_spec(id), fetched, after),
        fetched is Completed,
    ensures
        delete_product_done_spec(deleted) == Ok::<_, ApiErrorView>(
            ApiResponseView { success: true, data: DELETED_MESSAGE@ },
        ),
        get_product_by_id_done_spec(fetched) == Err::<ApiResponseView<ProductView>, _>(
            ApiErrorView::NotFound,
        ),
{
}

/// Two creations never answer with the same identifier, whatever was run
/// on the table between them: `tables` is the history from the first
/// creation to the second. The later one gets the larger identifier.
pub proof fn law_created_ids_differ(
    first: ProductView,
    second: ProductView,
    before: Table,
    tables: Seq<Table>,
    after: Table,
    first_id: i64,
    second_id: i64,
)
    requires
        before.wf(),
        tables.len() > 0,
        create_product_spec(first) matches Ok(insert) && before.inserts(
            insert,
            StoreOutcomeView::Completed(first_id),
            tables.first(),
        ),
        is_history(tables),
        create_product_spec(second) matches Ok(insert) && tables.last().inserts(
            insert,
            StoreOutcomeView::Completed(second_id),
            after,
        ),
    ensures
        first_id < second_id,
{
    assert(before.steps_to(tables.first()));
    lemma_step(before, tables.first());
    lemma_history(tables);
}

/// Of two creations run one after the other, neither write is lost: the
/// table then holds both rows, each under its own identifier.
pub proof fn law_creations_keep_each_other(
    first: ProductView,
    second: ProductView,
    before: Table,
    between: Table,
    after: Table,
    first_id: i64,
    second_id: i64,
)
    requires
        before.wf(),
        create_product_spec(first) matches Ok(insert) && before.inserts(
            insert,
            StoreOutcomeView::Completed(first_id),
            between,
        ),
        create_product_spec(second) matches Ok(insert) && between.inserts(
            insert,
            StoreOutcomeView::Completed(second_id),
            after,
        ),
    ensures
        first_id != second_id,
        after.rows.contains_key(first_id) && after.rows[first_id].same_values(first.row()),
        after.rows.contains_key(second_id) && after.rows[second_id].same_values(second.row()),
{
}

} // verus!
