use hypermon::commands::show;
use hypermon::commands::show::titles;
use hypermon::table::{Cell, Color, Row, Style};
use hypermon::types::{Query, Validator};

fn validator(address: &str, stake: u64, jailed: bool) -> Validator {
    Validator {
        validator: address.to_string(),
        name: format!("{} name", address),
        description: "d".to_string(),
        n_recent_blocks: 3,
        stake,
        is_jailed: jailed,
    }
}

fn texts(row: &Row) -> Vec<&str> {
    row.cells.iter().map(|cell: &Cell| cell.text.as_str()).collect()
}

fn every_cell_has(row: &Row, styles: &[Style]) -> bool {
    row.cells.iter().all(|cell| cell.styles == styles)
}

#[test]
fn row_of_an_active_validator_is_plain() {
    let row = validator("0xa", 120, false).as_row(4, false);
    assert_eq!(texts(&row), vec!["4", "0xa", "0xa name", "3", "120", "false"]);
    assert!(every_cell_has(&row, &[]));
}

#[test]
fn row_of_a_jailed_validator_is_red() {
    let row = validator("0xa", 120, true).as_row(0, false);
    assert_eq!(texts(&row), vec!["0", "0xa", "0xa name", "3", "120", "true"]);
    assert!(every_cell_has(&row, &[Style::Foreground(Color::Red)]));
}

#[test]
fn row_of_the_special_validator_is_italic_and_green() {
    let active = validator("0xa", 120, false).as_row(1, true);
    assert!(every_cell_has(
        &active,
        &[Style::Italic, Style::Foreground(Color::BrightGreen)]
    ));
    let jailed = validator("0xa", 120, true).as_row(1, true);
    assert!(every_cell_has(
        &jailed,
        &[
            Style::Foreground(Color::Red),
            Style::Italic,
            Style::Foreground(Color::BrightGreen)
        ]
    ));
}

#[test]
fn titles_are_bold() {
    let row = titles();
    assert_eq!(
        texts(&row),
        vec![
            "#",
            "\u{1F4E2} Address",
            "\u{1F4D3} Name",
            "\u{1F9F1} Recent Blocks",
            "\u{1F969} Stake",
            "\u{1F6A8} Is Jailed?"
        ]
    );
    assert!(every_cell_has(&row, &[Style::Bold]));
}

fn network() -> Vec<Validator> {
    vec![
        validator("0xa", 9, false),
        validator("0xb", 8, true),
        validator("0xc", 7, false),
        validator("0xd", 6, true),
    ]
}

fn shown(only_active: bool, only_jailed: bool) -> Vec<(String, String)> {
    show(&network(), "0xc", only_active, only_jailed)
        .rows
        .iter()
        .map(|row| (row.cells[0].text.clone(), row.cells[1].text.clone()))
        .collect()
}

fn pairs(rows: &[(&str, &str)]) -> Vec<(String, String)> {
    rows.iter()
        .map(|(number, address)| (number.to_string(), address.to_string()))
        .collect()
}

#[test]
fn table_shows_all_validators_without_flags() {
    assert_eq!(
        shown(false, false),
        pairs(&[("0", "0xa"), ("1", "0xb"), ("2", "0xc"), ("3", "0xd")])
    );
}

#[test]
fn table_shows_the_jailed_with_their_place_in_the_list() {
    assert_eq!(shown(false, true), pairs(&[("1", "0xb"), ("3", "0xd")]));
}

#[test]
fn table_shows_the_active_with_their_place_in_the_list() {
    assert_eq!(shown(true, false), pairs(&[("0", "0xa"), ("2", "0xc")]));
}

#[test]
fn table_shows_all_validators_with_both_flags() {
    assert_eq!(
        shown(true, true),
        pairs(&[("0", "0xa"), ("1", "0xb"), ("2", "0xc"), ("3", "0xd")])
    );
}

#[test]
fn table_singles_out_the_filter_address() {
    let table = show(&network(), "0xc", false, false);
    assert!(every_cell_has(&table.titles, &[Style::Bold]));
    assert!(every_cell_has(&table.rows[0], &[]));
    assert!(every_cell_has(&table.rows[1], &[Style::Foreground(Color::Red)]));
    assert!(every_cell_has(
        &table.rows[2],
        &[Style::Italic, Style::Foreground(Color::BrightGreen)]
    ));
}

#[test]
fn validator_has_a_one_line_description() {
    assert_eq!(
        validator("0xa", 120, true).to_text(),
        "Name: 0xa, Address: 0xa name, Stake: 120, Recent Blocks: 3, Jailed: true"
    );
}

#[test]
fn query_asks_for_the_validator_summaries() {
    assert_eq!(Query::validator_summaries().t, "validatorSummaries");
}
