use gid::config::Config;
use gid::config::effective_list_token;
use gid::model::Error;
use gid::model::Item;
use gid::present::display_rows;
use gid::style::TableStyle;
use gid::style::style_of_name;

#[test]
fn default_config_selects_list_zero_and_rounded_tables() {
    let c = Config::default();
    assert_eq!(c.default_list.as_str(), "0");
    assert_eq!(c.table_style.as_str(), "rounded");
}

#[test]
fn explicit_list_selector_wins_over_the_configured_default() {
    let c = Config { default_list: "chores".to_string(), table_style: "rounded".to_string() };
    let t = effective_list_token(Some("errands".to_string()), &c);
    assert_eq!(t.as_str(), "errands");
}

#[test]
fn configured_default_applies_when_no_list_is_named() {
    let c = Config { default_list: "chores".to_string(), table_style: "rounded".to_string() };
    let t = effective_list_token(None, &c);
    assert_eq!(t.as_str(), "chores");
}

#[test]
fn every_style_name_selects_its_style() {
    let cases = [
        ("markdown", TableStyle::Markdown),
        ("empty", TableStyle::Empty),
        ("blank", TableStyle::Blank),
        ("ascii", TableStyle::Ascii),
        ("ascii_rounded", TableStyle::AsciiRounded),
        ("modern", TableStyle::Modern),
        ("sharp", TableStyle::Sharp),
        ("rounded", TableStyle::Rounded),
        ("extended", TableStyle::Extended),
        ("dots", TableStyle::Dots),
    ];
    for (name, style) in cases {
        assert_eq!(style_of_name(&name.to_string()), style);
    }
}

#[test]
fn unknown_style_names_fall_back_to_rounded() {
    assert_eq!(style_of_name(&"".to_string()), TableStyle::Rounded);
    assert_eq!(style_of_name(&"fancy".to_string()), TableStyle::Rounded);
}

#[test]
fn display_rows_pair_each_title_with_its_decimal_position() {
    let items = vec![
        Item { id: "a".to_string(), title: "Buy milk".to_string() },
        Item { id: "b".to_string(), title: "Clean".to_string() },
        Item { id: "c".to_string(), title: "Call".to_string() },
    ];
    let rows = display_rows(&items);
    assert_eq!(rows.len(), 3);
    assert_eq!(rows[0].index.as_str(), "0");
    assert_eq!(rows[0].title.as_str(), "Buy milk");
    assert_eq!(rows[1].index.as_str(), "1");
    assert_eq!(rows[2].index.as_str(), "2");
    assert_eq!(rows[2].title.as_str(), "Call");
}

#[test]
fn error_messages_name_what_went_wrong() {
    assert_eq!(
        Error::Transport("boom".to_string()).message(),
        "transport failure: boom"
    );
    assert_eq!(
        Error::Remote { status: 404, message: "gone".to_string() }.message(),
        "remote service error (status 404): gone"
    );
    assert_eq!(Error::NotFound.message(), "resource not found");
    assert_eq!(
        Error::IdentifierNotFound { token: "nope".to_string() }.message(),
        "task name or index not found: nope"
    );
    assert_eq!(Error::ConfigMalformed.message(), "malformed config path, using default");
}
