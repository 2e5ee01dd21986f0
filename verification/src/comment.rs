//! The short remark that goes with a label.

use vstd::prelude::*;
use crate::models::{opt_text, MoveClassification};
use crate::text::{append_decimal, append_str, chars_of, decimal, is_text, string_of};

verus! {

/// How a side is named in a remark: anything but "white" is Black.
pub open spec fn side_name(color: Seq<char>) -> Seq<char> {
    if color == "white"@ {
        "White"@
    } else {
        "Black"@
    }
}

/// The remark on a move: none for a best or a good move, a fixed one for a
/// book move and a forced move, and one that names the move, its number or
/// the side for the others.
pub open spec fn comment_of(c: MoveClassification, san: Seq<char>, color: Seq<char>, number: nat)
    -> Option<Seq<char>> {
    match c {
        MoveClassification::Brilliant => Some(
            "Brilliant move! "@ + decimal(number) + ". "@ + san + " is an exceptional find."@,
        ),
        MoveClassification::Great => Some(
            "Great move by "@ + side_name(color) + ". "@ + san + " maintains strong pressure."@,
        ),
        MoveClassification::Best => None,
        MoveClassification::Good => None,
        MoveClassification::Book => Some("Theory move."@),
        MoveClassification::Inaccuracy => Some(
            "Inaccuracy. "@ + side_name(color) + " could have played a more precise move here."@,
        ),
        MoveClassification::Mistake => Some(
            "Mistake! "@ + decimal(number) + ". "@ + san + " gives away part of "@ + side_name(
                color,
            ) + "'s advantage."@,
        ),
        MoveClassification::Blunder => Some(
            "Blunder! "@ + decimal(number) + ". "@ + san
                + " is a serious error that changes the evaluation significantly."@,
        ),
        MoveClassification::ForcedMove => Some("Only legal move."@),
    }
}

/// How a side is named in a remark.
fn side_of(color: &str) -> (r: &'static str)
    ensures
        r@ == side_name(color@),
{
    let c = chars_of(color);
    if is_text(&c, "white") {
        "White"
    } else {
        "Black"
    }
}

/// The remark on a move with the given label.
pub fn generate_comment(
    classification: &MoveClassification,
    san: &str,
    color: &str,
    move_number: u64,
) -> (r: Option<String>)
    ensures
        opt_text(r) == comment_of(*classification, san@, color@, move_number as nat),
        (*classification == MoveClassification::Best || *classification
            == MoveClassification::Good) <==> r is None,
{
    let mut out: Vec<char> = Vec::new();
    let ghost empty = Seq::<char>::empty();
    match classification {
        MoveClassification::Brilliant => {
            append_str(&mut out, "Brilliant move! ");
            append_decimal(&mut out, move_number);
            append_str(&mut out, ". ");
            append_str(&mut out, san);
            append_str(&mut out, " is an exceptional find.");
        },
        MoveClassification::Great => {
            append_str(&mut out, "Great move by ");
            assert(out@ == "Great move by "@) by {
                assert(empty + "Great move by "@ == "Great move by "@);
            }
            append_str(&mut out, side_of(color));
            append_str(&mut out, ". ");
            append_str(&mut out, san);
            append_str(&mut out, " maintains strong pressure.");
        },
        MoveClassification::Best => {
            return None;
        },
        MoveClassification::Good => {
            return None;
        },
        MoveClassification::Book => {
            return Some("Theory move.".to_owned());
        },
        MoveClassification::Inaccuracy => {
            append_str(&mut out, "Inaccuracy. ");
            append_str(&mut out, side_of(color));
            append_str(&mut out, " could have played a more precise move here.");
        },
        MoveClassification::Mistake => {
            append_str(&mut out, "Mistake! ");
            append_decimal(&mut out, move_number);
            append_str(&mut out, ". ");
            append_str(&mut out, san);
            append_str(&mut out, " gives away part of ");
            append_str(&mut out, side_of(color));
            append_str(&mut out, "'s advantage.");
        },
        MoveClassification::Blunder => {
            append_str(&mut out, "Blunder! ");
            append_decimal(&mut out, move_number);
            append_str(&mut out, ". ");
            append_str(&mut out, san);
            append_str(&mut out, " is a serious error that changes the evaluation significantly.");
        },
        MoveClassification::ForcedMove => {
            return Some("Only legal move.".to_owned());
        },
    }
    Some(string_of(&out))
}

} // verus!
