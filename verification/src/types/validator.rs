//! One validator as the validator source reports it.

use crate::table::{styled_row, CellView, Color, Row, Style};
use crate::text::{decimal, decimal_text, push_decimal, truth_text, truth_value_text};
use vstd::prelude::*;

verus! {

/// The snapshot of one validator, received fresh on every poll. `validator`
/// is the address: it identifies the validator across polls.
#[derive(Debug)]
pub struct Validator {
    pub validator: String,
    pub name: String,
    pub description: String,
    pub n_recent_blocks: usize,
    pub stake: u64,
    pub is_jailed: bool,
}

/// A validator snapshot as plain values.
pub struct ValidatorView {
    pub address: Seq<char>,
    pub name: Seq<char>,
    pub description: Seq<char>,
    pub recent_blocks: usize,
    pub stake: u64,
    pub jailed: bool,
}

impl View for Validator {
    type V = ValidatorView;

    open spec fn view(&self) -> ValidatorView {
        ValidatorView {
            address: self.validator@,
            name: self.name@,
            description: self.description@,
            recent_blocks: self.n_recent_blocks,
            stake: self.stake,
            jailed: self.is_jailed,
        }
    }
}

/// The snapshots of a list of validators, in the list's order.
pub open spec fn snapshots(validators: Seq<Validator>) -> Seq<ValidatorView> {
    validators.map_values(|v: Validator| v@)
}

/// The one-line description of a validator.
pub open spec fn validator_text(v: ValidatorView) -> Seq<char> {
    "Name: "@ + v.address + ", Address: "@ + v.name + ", Stake: "@ + decimal(v.stake as nat)
        + ", Recent Blocks: "@ + decimal(v.recent_blocks as nat) + ", Jailed: "@ + truth_text(v.jailed)
}

/// The texts of the cells of a validator's row: the row's number, the
/// address, the name, the recent blocks, the stake and the jailed state.
pub open spec fn row_texts(v: ValidatorView, row_number: nat) -> Seq<Seq<char>> {
    seq![
        decimal(row_number),
        v.address,
        v.name,
        decimal(v.recent_blocks as nat),
        decimal(v.stake as nat),
        truth_text(v.jailed),
    ]
}

/// The styles of the cells of a validator's row: red for a jailed
/// validator; then italic and bright green for the validator that the
/// viewer singled out.
pub open spec fn row_styles(jailed: bool, is_special: bool) -> Seq<Style> {
    (if jailed {
        seq![Style::Foreground(Color::Red)]
    } else {
        Seq::empty()
    }) + (if is_special {
        seq![Style::Italic, Style::Foreground(Color::BrightGreen)]
    } else {
        Seq::empty()
    })
}

/// The row of a validator.
pub open spec fn validator_row(v: ValidatorView, row_number: nat, is_special: bool) -> Seq<
    CellView,
> {
    styled_row(row_texts(v, row_number), row_styles(v.jailed, is_special))
}

impl Validator {
    /// The row that shows this validator in a table, as row `row_number`.
    /// `is_special` singles the validator out.
    pub fn as_row(&self, row_number: usize, is_special: bool) -> (row: Row)
        ensures
            row@ == validator_row(self@, row_number as nat, is_special),
    {
        let mut texts: Vec<String> = Vec::new();
        texts.push(decimal_text(row_number as u128));
        texts.push(self.validator.clone());
        texts.push(self.name.clone());
        texts.push(decimal_text(self.n_recent_blocks as u128));
        texts.push(decimal_text(self.stake as u128));
        texts.push(truth_value_text(self.is_jailed));
        let mut styles: Vec<Style> = Vec::new();
        if self.is_jailed {
            styles.push(Style::Foreground(Color::Red));
        }
        if is_special {
            styles.push(Style::Italic);
            styles.push(Style::Foreground(Color::BrightGreen));
        }
        assert(texts@.map_values(|text: String| text@) =~= row_texts(self@, row_number as nat));
        assert(styles@ =~= row_styles(self.is_jailed, is_special));
        Row::styled(&texts, &styles)
    }

    /// The one-line description of this validator.
    pub fn to_text(&self) -> (text: String)
        ensures
            text@ == validator_text(self@),
    {
        let mut text = String::from_str("Name: ");
        text.append(self.validator.as_str());
        text.append(", Address: ");
        text.append(self.name.as_str());
        text.append(", Stake: ");
        push_decimal(&mut text, self.stake as u128);
        text.append(", Recent Blocks: ");
        push_decimal(&mut text, self.n_recent_blocks as u128);
        text.append(", Jailed: ");
        let jailed = truth_value_text(self.is_jailed);
        text.append(jailed.as_str());
        text
    }
}

} // verus!
