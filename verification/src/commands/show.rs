//! The table that shows the state of the network's validators.

use crate::table::{row_views, styled_row, CellView, Row, Style, Table};
use crate::types::validator::{snapshots, validator_row, Validator, ValidatorView};
use vstd::prelude::*;

verus! {

/// The titles of the table's columns.
pub open spec fn title_texts() -> Seq<Seq<char>> {
    seq![
        "#"@,
        "\u{1F4E2} Address"@,
        "\u{1F4D3} Name"@,
        "\u{1F9F1} Recent Blocks"@,
        "\u{1F969} Stake"@,
        "\u{1F6A8} Is Jailed?"@,
    ]
}

/// The row of the titles: every title in bold.
pub open spec fn title_row() -> Seq<CellView> {
    styled_row(title_texts(), seq![Style::Bold])
}

/// Whether the table shows a validator. With neither flag it shows all;
/// with `only_jailed` the jailed ones, with `only_active` those that are
/// not jailed, with both flags all again.
pub open spec fn is_shown(v: ValidatorView, only_active: bool, only_jailed: bool) -> bool {
    if only_jailed || only_active {
        (only_jailed && v.jailed) || (only_active && !v.jailed)
    } else {
        true
    }
}

/// The rows of the validators that the table shows, in the list's order.
/// A row's number is the validator's place in the whole list, counted from
/// zero; the validator at `filter_address` is singled out.
pub open spec fn shown_rows(
    vs: Seq<ValidatorView>,
    filter_address: Seq<char>,
    only_active: bool,
    only_jailed: bool,
) -> Seq<Seq<CellView>>
    decreases vs.len(),
{
    if vs.len() == 0 {
        Seq::empty()
    } else {
        shown_rows(vs.drop_last(), filter_address, only_active, only_jailed) + if is_shown(
            vs.last(),
            only_active,
            only_jailed,
        ) {
            seq![
                validator_row(
                    vs.last(),
                    (vs.len() - 1) as nat,
                    vs.last().address == filter_address,
                ),
            ]
        } else {
            Seq::empty()
        }
    }
}

/// The row of the titles.
pub fn titles() -> (row: Row)
    ensures
        row@ == title_row(),
{
    let mut texts: Vec<String> = Vec::new();
    texts.push(String::from_str("#"));
    texts.push(String::from_str("\u{1F4E2} Address"));
    texts.push(String::from_str("\u{1F4D3} Name"));
    texts.push(String::from_str("\u{1F9F1} Recent Blocks"));
    texts.push(String::from_str("\u{1F969} Stake"));
    texts.push(String::from_str("\u{1F6A8} Is Jailed?"));
    let mut styles: Vec<Style> = Vec::new();
    styles.push(Style::Bold);
    assert(texts@.map_values(|text: String| text@) =~= title_texts());
    assert(styles@ =~= seq![Style::Bold]);
    Row::styled(&texts, &styles)
}

/// The table of the validators: the titles, and a row for each validator
/// that the flags let through.
pub fn show(
    validators: &Vec<Validator>,
    filter_address: &str,
    only_active: bool,
    only_jailed: bool,
) -> (table: Table)
    ensures
        table.titles@ == title_row(),
        row_views(table.rows@) == shown_rows(
            snapshots(validators@),
            filter_address@,
            only_active,
            only_jailed,
        ),
{
    let ghost records = snapshots(validators@);
    let special = String::from_str(filter_address);
    let mut rows: Vec<Row> = Vec::new();
    assert(row_views(rows@) =~= shown_rows(
        records.take(0),
        filter_address@,
        only_active,
        only_jailed,
    ));
    let mut i: usize = 0;
    while i < validators.len()
        invariant
            i <= validators.len(),
            records == snapshots(validators@),
            special@ == filter_address@,
            row_views(rows@) == shown_rows(
                records.take(i as int),
                filter_address@,
                only_active,
                only_jailed,
            ),
        decreases validators.len() - i,
    {
        let validator = &validators[i];
        let ghost shown = row_views(rows@);
        proof {
            assert(records.take(i + 1).drop_last() =~= records.take(i as int));
            assert(records.take(i + 1).last() == validator@);
        }
        let wanted = if only_jailed || only_active {
            (only_jailed && validator.is_jailed) || (only_active && !validator.is_jailed)
        } else {
            true
        };
        if wanted {
            let row = validator.as_row(i, validator.validator == special);
            rows.push(row);
            assert(row_views(rows@) =~= shown.push(row@));
        }
        assert(row_views(rows@) =~= shown_rows(
            records.take(i + 1),
            filter_address@,
            only_active,
            only_jailed,
        ));
        i += 1;
    }
    assert(records.take(validators.len() as int) =~= records);
    Table { titles: titles(), rows }
}

} // verus!
