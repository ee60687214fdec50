//! What a handler asks of the products table, and what comes back.
//!
//! A handler never touches the table. It names one statement; whoever owns
//! the connection runs it and reports how it ended.

use vstd::prelude::*;
use vstd::std_specs::cmp::PartialEqSpecImpl;

use crate::price::Price;

verus! {

/// Defines the products table, unless it is there already.
pub const CREATE_TABLE_SQL: &'static str =
    "CREATE TABLE IF NOT EXISTS products (id INTEGER PRIMARY KEY AUTOINCREMENT, name TEXT NOT NULL, price REAL NOT NULL, description TEXT NOT NULL, stock INTEGER NOT NULL)";

/// Writes a new row; the table assigns its identifier.
pub const INSERT_SQL: &'static str =
    "INSERT INTO products (name, price, description, stock) VALUES (?1, ?2, ?3, ?4)";

/// Reads every row.
pub const SELECT_ALL_SQL: &'static str = "SELECT id, name, price, description, stock FROM products";

/// Reads the row with one identifier.
pub const SELECT_BY_ID_SQL: &'static str =
    "SELECT id, name, price, description, stock FROM products WHERE id = ?1";

/// Overwrites the row with one identifier.
pub const UPDATE_SQL: &'static str =
    "UPDATE products SET name = ?1, price = ?2, description = ?3, stock = ?4 WHERE id = ?5";

/// Removes the row with one identifier.
pub const DELETE_SQL: &'static str = "DELETE FROM products WHERE id = ?1";

/// The four fields of a product that a request can set.
#[derive(Debug)]
pub struct Row {
    pub name: String,
    pub price: Price,
    pub description: String,
    pub stock: i32,
}

/// The four settable fields, with the texts as sequences of characters.
pub ghost struct RowView {
    pub name: Seq<char>,
    pub price: Price,
    pub description: Seq<char>,
    pub stock: i32,
}

impl View for Row {
    type V = RowView;

    open spec fn view(&self) -> RowView {
        RowView {
            name: self.name@,
            price: self.price,
            description: self.description@,
            stock: self.stock,
        }
    }
}

impl RowView {
    /// The two rows hold the same values: the same texts, the same stock,
    /// and prices that compare equal as numbers.
    pub open spec fn same_values(self, other: RowView) -> bool {
        &&& self.name == other.name
        &&& self.price.same_number(other.price)
        &&& self.description == other.description
        &&& self.stock == other.stock
    }
}

/// Rows compare by their values, field by field.
impl PartialEq for Row {
    fn eq(&self, other: &Row) -> (equal: bool) {
        self.name == other.name && self.price == other.price && self.description
            == other.description && self.stock == other.stock
    }
}

impl PartialEqSpecImpl for Row {
    open spec fn obeys_eq_spec() -> bool {
        true
    }

    open spec fn eq_spec(&self, other: &Row) -> bool {
        self@.same_values(other@)
    }
}

/// A value bound to a placeholder of a statement.
#[derive(Debug)]
pub enum Param {
    Integer(i64),
    Real(Price),
    Text(String),
}

/// A bound value, with a text as a sequence of characters.
pub ghost enum ParamView {
    Integer(i64),
    Real(Price),
    Text(Seq<char>),
}

impl View for Param {
    type V = ParamView;

    open spec fn view(&self) -> ParamView {
        match self {
            Param::Integer(number) => ParamView::Integer(*number),
            Param::Real(price) => ParamView::Real(*price),
            Param::Text(text) => ParamView::Text(text@),
        }
    }
}

impl DeepView for Param {
    type V = ParamView;

    open spec fn deep_view(&self) -> ParamView {
        self@
    }
}

/// One statement against the products table.
#[derive(Debug)]
pub enum Statement {
    Insert { row: Row },
    SelectAll,
    SelectById { id: i64 },
    Update { id: i64, row: Row },
    Delete { id: i64 },
}

/// A statement, with its texts as sequences of characters.
pub ghost enum StatementView {
    Insert { row: RowView },
    SelectAll,
    SelectById { id: i64 },
    Update { id: i64, row: RowView },
    Delete { id: i64 },
}

impl View for Statement {
    type V = StatementView;

    open spec fn view(&self) -> StatementView {
        match self {
            Statement::Insert { row } => StatementView::Insert { row: row@ },
            Statement::SelectAll => StatementView::SelectAll,
            Statement::SelectById { id } => StatementView::SelectById { id: *id },
            Statement::Update { id, row } => StatementView::Update { id: *id, row: row@ },
            Statement::Delete { id } => StatementView::Delete { id: *id },
        }
    }
}

impl StatementView {
    /// The text of the statement, with numbered placeholders.
    pub open spec fn sql(self) -> Seq<char> {
        match self {
            StatementView::Insert { .. } => INSERT_SQL@,
            StatementView::SelectAll => SELECT_ALL_SQL@,
            StatementView::SelectById { .. } => SELECT_BY_ID_SQL@,
            StatementView::Update { .. } => UPDATE_SQL@,
            StatementView::Delete { .. } => DELETE_SQL@,
        }
    }

    /// The values bound to the placeholders, the first one first.
    pub open spec fn params(self) -> Seq<ParamView> {
        match self {
            StatementView::Insert { row } => seq![
                ParamView::Text(row.name),
                ParamView::Real(row.price),
                ParamView::Text(row.description),
                ParamView::Integer(row.stock as i64),
            ],
            StatementView::SelectAll => seq![],
            StatementView::SelectById { id } => seq![ParamView::Integer(id)],
            StatementView::Update { id, row } => seq![
                ParamView::Text(row.name),
                ParamView::Real(row.price),
                ParamView::Text(row.description),
                ParamView::Integer(row.stock as i64),
                ParamView::Integer(id),
            ],
            StatementView::Delete { id } => seq![ParamView::Integer(id)],
        }
    }
}

impl Statement {
    /// The text of the statement, with numbered placeholders.
    pub fn sql(&self) -> (text: &'static str)
        ensures
            text@ == self@.sql(),
    {
        match self {
            Statement::Insert { .. } => INSERT_SQL,
            Statement::SelectAll => SELECT_ALL_SQL,
            Statement::SelectById { .. } => SELECT_BY_ID_SQL,
            Statement::Update { .. } => UPDATE_SQL,
            Statement::Delete { .. } => DELETE_SQL,
        }
    }

    /// The values to bind to the placeholders, the first one first.
    pub fn params(&self) -> (values: Vec<Param>)
        ensures
            values.deep_view() == self@.params(),
    {
        let mut values: Vec<Param> = Vec::new();
        match self {
            Statement::Insert { row } => {
                values.push(Param::Text(row.name.clone()));
                values.push(Param::Real(row.price));
                values.push(Param::Text(row.description.clone()));
                values.push(Param::Integer(row.stock as i64));
            },
            Statement::SelectAll => {},
            Statement::SelectById { id } => {
                values.push(Param::Integer(*id));
            },
            Statement::Update { id, row } => {
                values.push(Param::Text(row.name.clone()));
                values.push(Param::Real(row.price));
                values.push(Param::Text(row.description.clone()));
                values.push(Param::Integer(row.stock as i64));
                values.push(Param::Integer(*id));
            },
            Statement::Delete { id } => {
                values.push(Param::Integer(*id));
            },
        }
        assert(values.deep_view() =~= self@.params());
        values
    }
}

/// How a statement ended.
#[derive(Debug)]
pub enum StoreOutcome<T> {
    /// The statement ran; this is its answer.
    Completed(T),
    /// The storage engine refused or failed; the text is the cause it gave.
    Failed(String),
    /// The connection could not be had, so nothing ran.
    Unavailable,
}

/// How a statement ended, with answer and cause seen through their views.
pub ghost enum StoreOutcomeView<V> {
    Completed(V),
    Failed(Seq<char>),
    Unavailable,
}

impl<T: DeepView> DeepView for StoreOutcome<T> {
    type V = StoreOutcomeView<T::V>;

    open spec fn deep_view(&self) -> StoreOutcomeView<T::V> {
        match self {
            StoreOutcome::Completed(answer) => StoreOutcomeView::Completed(answer.deep_view()),
            StoreOutcome::Failed(cause) => StoreOutcomeView::Failed(cause@),
            StoreOutcome::Unavailable => StoreOutcomeView::Unavailable,
        }
    }
}

} // verus!
