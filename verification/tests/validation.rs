use product_inventory::error::ApiError;
use product_inventory::price::Price;
use product_inventory::product::{char_is_whitespace, text_is_blank, Product};

fn product(name: &str, price: f64, description: &str, stock: i32) -> Product {
    Product {
        id: None,
        name: name.to_string(),
        price: Price::from_bits(price.to_bits()),
        description: description.to_string(),
        stock,
    }
}

fn refusal(p: &Product) -> String {
    match p.validate() {
        Err(ApiError::BadRequest(reason)) => reason,
        other => panic!("expected a bad request, got {other:?}"),
    }
}

#[test]
fn valid_product_is_accepted() {
    assert!(product("Widget", 9.99, "d", 5).validate().is_ok());
}

#[test]
fn zero_price_and_zero_stock_are_accepted() {
    assert!(product("Widget", 0.0, "", 0).validate().is_ok());
    assert!(product("Widget", -0.0, "", 0).validate().is_ok());
}

#[test]
fn empty_description_is_accepted() {
    assert!(product("a", 1.0, "", 1).validate().is_ok());
}

#[test]
fn identifier_plays_no_part_in_validation() {
    let mut p = product("Widget", 9.99, "d", 5);
    p.id = Some(-7);
    assert!(p.validate().is_ok());
}

#[test]
fn empty_name_is_refused() {
    assert_eq!(refusal(&product("", 9.99, "d", 5)), "name cannot be empty");
}

#[test]
fn whitespace_only_name_is_refused() {
    assert_eq!(refusal(&product("   ", 9.99, "d", 5)), "name cannot be empty");
    assert_eq!(refusal(&product(" \t\r\n", 9.99, "d", 5)), "name cannot be empty");
    assert_eq!(refusal(&product("\u{a0}\u{3000}\u{2003}", 9.99, "d", 5)), "name cannot be empty");
}

#[test]
fn name_with_surrounding_whitespace_is_accepted() {
    assert!(product("  Widget  ", 9.99, "d", 5).validate().is_ok());
    assert!(product("\tx", 9.99, "d", 5).validate().is_ok());
    assert!(product("\u{200b}", 9.99, "d", 5).validate().is_ok());
}

#[test]
fn negative_price_is_refused() {
    assert_eq!(refusal(&product("Widget", -0.01, "d", 5)), "price cannot be negative");
    assert_eq!(refusal(&product("Widget", f64::NEG_INFINITY, "d", 5)), "price cannot be negative");
}

#[test]
fn price_that_is_not_a_number_is_not_refused() {
    assert!(product("Widget", f64::NAN, "d", 5).validate().is_ok());
}

#[test]
fn negative_stock_is_refused() {
    assert_eq!(refusal(&product("Widget", 9.99, "d", -1)), "stock cannot be negative");
    assert_eq!(refusal(&product("Widget", 9.99, "d", i32::MIN)), "stock cannot be negative");
}

#[test]
fn largest_stock_is_accepted() {
    assert!(product("Widget", 9.99, "d", i32::MAX).validate().is_ok());
}

#[test]
fn only_the_first_violation_is_reported() {
    assert_eq!(refusal(&product(" ", -1.0, "d", -1)), "name cannot be empty");
    assert_eq!(refusal(&product("", 1.0, "d", -1)), "name cannot be empty");
    assert_eq!(refusal(&product("Widget", -1.0, "d", -1)), "price cannot be negative");
}

#[test]
fn whitespace_agrees_with_the_standard_library_on_every_character() {
    let mut count = 0;
    for code in 0..=0x10ffffu32 {
        if let Some(c) = char::from_u32(code) {
            assert_eq!(char_is_whitespace(c), c.is_whitespace(), "U+{code:04X}");
            if char_is_whitespace(c) {
                count += 1;
            }
        }
    }
    assert_eq!(count, 25);
}

#[test]
fn blank_agrees_with_trimming() {
    let texts = [
        "",
        " ",
        "a",
        " a ",
        "\n\n",
        "\u{85}",
        "\u{1680}\u{2028}\u{2029}\u{202f}\u{205f}",
        "\u{2000}\u{200a}",
        "\u{200b}",
        "\u{180e}",
        "\u{feff}",
        "  \u{0} ",
        "Widget",
        "\u{1f}",
        "\u{1c}",
    ];
    for text in texts {
        assert_eq!(text_is_blank(text), text.trim().is_empty(), "{text:?}");
    }
}

#[test]
fn blank_texts() {
    assert!(text_is_blank(""));
    assert!(text_is_blank(" \t "));
    assert!(!text_is_blank(" x "));
    assert!(!text_is_blank("x"));
}
