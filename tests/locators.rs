use waterfall::{
    button, css, field_input, message_option, unit_option, with_text, xpath, xpath_literal,
    Locator,
};

fn xpath_text(l: Locator) -> String {
    match l {
        Locator::XPath(x) => x,
        Locator::Css(_) => panic!("expected an XPath locator"),
    }
}

#[test]
fn literal_plain() {
    assert_eq!(xpath_literal("get"), "'get'");
    assert_eq!(xpath_literal(""), "''");
}

#[test]
fn literal_with_double_quotes() {
    assert_eq!(xpath_literal("say \"hi\""), "'say \"hi\"'");
}

#[test]
fn literal_with_apostrophe() {
    assert_eq!(xpath_literal("it's"), "concat('it', \"'\", 's')");
    assert_eq!(xpath_literal("'"), "concat('', \"'\", '')");
}

#[test]
fn label_cannot_break_out_of_the_literal() {
    let l = xpath_text(field_input("x')] | //*[contains(text(),'y"));
    assert_eq!(
        l,
        "//label/*[contains(text(),concat('x', \"'\", ')] | //*[contains(text(),', \"'\", 'y'))]/ancestor::div[1]//*/input"
    );
}

#[test]
fn method_option_template() {
    assert_eq!(
        xpath_text(message_option("get")),
        "//*[contains(text(),'Message to Send')]/ancestor::div[1]/div//*[contains(text(),'get')]"
    );
}

#[test]
fn other_templates() {
    assert_eq!(
        xpath_text(unit_option("Unit")),
        "//div[@role='option']/span[contains(text(),'Unit')]"
    );
    assert_eq!(xpath_text(with_text("Local Node")), "//*[contains(text(),'Local Node')]");
    assert_eq!(xpath_text(button("Call")), "//button[contains(text(),'Call')]");
    assert_eq!(xpath_text(xpath("//a")), "//a");
    assert!(matches!(css(".x"), Locator::Css(s) if s == ".x"));
}
