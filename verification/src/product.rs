//! The product record and the rules that gate what is written.

use vstd::prelude::*;
use vstd::string::*;

use crate::error::{ApiError, ApiErrorView};
use crate::price::Price;
use crate::store::{Row, RowView};

verus! {

/// A product as it comes in and goes out. The identifier is absent on a
/// product that is yet to be stored; the table assigns it.
#[derive(Debug)]
pub struct Product {
    pub id: Option<i64>,
    pub name: String,
    pub price: Price,
    pub description: String,
    pub stock: i32,
}

/// A product, with its texts as sequences of characters.
pub ghost struct ProductView {
    pub id: Option<i64>,
    pub name: Seq<char>,
    pub price: Price,
    pub description: Seq<char>,
    pub stock: i32,
}

impl View for Product {
    type V = ProductView;

    open spec fn view(&self) -> ProductView {
        ProductView {
            id: self.id,
            name: self.name@,
            price: self.price,
            description: self.description@,
            stock: self.stock,
        }
    }
}

impl DeepView for Product {
    type V = ProductView;

    open spec fn deep_view(&self) -> ProductView {
        self@
    }
}

/// The character is white space: one of the twenty-five code points that
/// Unicode gives the property `White_Space`.
pub open spec fn is_whitespace(c: char) -> bool {
    let code = c as u32;
    ||| 0x09 <= code <= 0x0d
    ||| code == 0x20
    ||| code == 0x85
    ||| code == 0xa0
    ||| code == 0x1680
    ||| 0x2000 <= code <= 0x200a
    ||| code == 0x2028
    ||| code == 0x2029
    ||| code == 0x202f
    ||| code == 0x205f
    ||| code == 0x3000
}

/// Nothing is left of the text once the white space around it is taken
/// away: every character of it is white space.
pub open spec fn is_blank(text: Seq<char>) -> bool {
    forall|i: int| 0 <= i < text.len() ==> is_whitespace(#[trigger] text[i])
}

/// Whether the character is white space.
pub fn char_is_whitespace(c: char) -> (white: bool)
    ensures
        white == is_whitespace(c),
{
    let code: u32 = c as u32;
    (0x09 <= code && code <= 0x0d) || code == 0x20 || code == 0x85 || code == 0xa0 || code
        == 0x1680 || (0x2000 <= code && code <= 0x200a) || code == 0x2028 || code == 0x2029 || code
        == 0x202f || code == 0x205f || code == 0x3000
}

/// Whether the text is empty or white space throughout.
pub fn text_is_blank(text: &str) -> (blank: bool)
    ensures
        blank == is_blank(text@),
{
    let mut blank = true;
    for c in chars: text.chars()
        invariant
            chars.seq() == text@,
            blank == (forall|i: int|
                0 <= i < chars.index() ==> is_whitespace(#[trigger] text@[i])),
    {
        if !char_is_whitespace(c) {
            blank = false;
        }
    }
    blank
}

impl ProductView {
    /// The first rule that the product breaks, as the message that names
    /// it; `None` for a product that may be written. The name is looked at
    /// first, then the price, then the stock.
    pub open spec fn rejection(self) -> Option<Seq<char>> {
        if is_blank(self.name) {
            Some("name cannot be empty"@)
        } else if self.price.negative() {
            Some("price cannot be negative"@)
        } else if self.stock < 0 {
            Some("stock cannot be negative"@)
        } else {
            None
        }
    }

    /// The product breaks no rule.
    pub open spec fn valid(self) -> bool {
        self.rejection() is None
    }

    /// The four fields of the product that a request can set.
    pub open spec fn row(self) -> RowView {
        RowView {
            name: self.name,
            price: self.price,
            description: self.description,
            stock: self.stock,
        }
    }
}

impl Product {
    /// A copy of the four fields of the product that a request can set.
    pub fn row(&self) -> (row: Row)
        ensures
            row@ == self@.row(),
    {
        Row {
            name: self.name.clone(),
            price: self.price,
            description: self.description.clone(),
            stock: self.stock,
        }
    }

    /// Checks the product against the rules. A product that breaks none is
    /// accepted; any other is refused as a bad request, with the message of
    /// the first rule it breaks.
    pub fn validate(&self) -> (checked: Result<(), ApiError>)
        ensures
            match self@.rejection() {
                None => checked is Ok,
                Some(reason) => checked matches Err(error) && error@ == ApiErrorView::BadRequest(
                    reason,
                ),
            },
    {
        if text_is_blank(self.name.as_str()) {
            return Err(ApiError::BadRequest(String::from_str("name cannot be empty")));
        }
        if self.price.is_negative() {
            return Err(ApiError::BadRequest(String::from_str("price cannot be negative")));
        }
        if self.stock < 0 {
            return Err(ApiError::BadRequest(String::from_str("stock cannot be negative")));
        }
        Ok(())
    }
}

} // verus!
