//! The row of month labels above the grid: the twelve months that end with
//! the current one.

use vstd::prelude::*;

verus! {

/// The number of labels in a full row.
pub const LABELS_IN_ROW: usize = 12;

/// The abbreviation of a month, counted from January as 0.
pub open spec fn month_abbreviation(month0: int) -> Seq<char> {
    if month0 == 0 {
        "Jan"@
    } else if month0 == 1 {
        "Feb"@
    } else if month0 == 2 {
        "Mar"@
    } else if month0 == 3 {
        "Apr"@
    } else if month0 == 4 {
        "May"@
    } else if month0 == 5 {
        "Jun"@
    } else if month0 == 6 {
        "Jul"@
    } else if month0 == 7 {
        "Aug"@
    } else if month0 == 8 {
        "Sep"@
    } else if month0 == 9 {
        "Oct"@
    } else if month0 == 10 {
        "Nov"@
    } else {
        "Dec"@
    }
}

/// The month, counted from January as 0, of the label at `position` when
/// the current month is `current_month0`: the row starts with the month
/// after the current one and goes round the year.
pub open spec fn label_month(current_month0: int, position: int) -> int {
    ((current_month0 + 1) % 12 + position) % 12
}

/// The labels of the row: none for a grid without weeks, else twelve.
pub open spec fn labels_of(total_weeks: int, current_month0: int) -> Seq<Seq<char>> {
    if total_weeks == 0 {
        Seq::empty()
    } else {
        Seq::new(12, |position: int| month_abbreviation(label_month(current_month0, position)))
    }
}

/// The abbreviation of a month of the year, counted from January as 0.
fn abbreviation(month0: u32) -> (name: &'static str)
    requires
        month0 < 12,
    ensures
        name@ == month_abbreviation(month0 as int),
{
    match month0 {
        0 => "Jan",
        1 => "Feb",
        2 => "Mar",
        3 => "Apr",
        4 => "May",
        5 => "Jun",
        6 => "Jul",
        7 => "Aug",
        8 => "Sep",
        9 => "Oct",
        10 => "Nov",
        _ => "Dec",
    }
}

/// The abbreviation of a month counted from January as 0, or `None` for a
/// number that is no month.
pub fn month_name(month0: u32) -> (name: Option<&'static str>)
    ensures
        name is Some <==> month0 < 12,
        name matches Some(text) ==> text@ == month_abbreviation(month0 as int),
{
    if month0 < 12 {
        Some(abbreviation(month0))
    } else {
        None
    }
}

/// The month of the label at `position`, counted from January as 0.
pub fn month_at(current_month0: u32, position: u32) -> (month0: u32)
    ensures
        month0 == label_month(current_month0 as int, position as int),
        month0 < 12,
{
    let start: u32 = (current_month0 % 12 + 1) % 12;
    (start + position % 12) % 12
}

/// The labels to print above a grid of `total_weeks` weeks when the current
/// month is `current_month0`, from left to right.
///
/// A grid without weeks has no labels. Any other has twelve: the month
/// after the current one first, the current one last.
pub fn month_labels(total_weeks: usize, current_month0: u32) -> (labels: Vec<&'static str>)
    ensures
        labels@.len() == labels_of(total_weeks as int, current_month0 as int).len(),
        forall|position: int|
            0 <= position < labels@.len() ==> (#[trigger] labels@[position])@ == labels_of(
                total_weeks as int,
                current_month0 as int,
            )[position],
        total_weeks == 0 ==> labels@.len() == 0,
        total_weeks != 0 ==> labels@.len() == 12,
{
    let mut labels: Vec<&'static str> = Vec::new();
    if total_weeks == 0 {
        return labels;
    }
    let mut position: u32 = 0;
    while position < 12
        invariant
            position <= 12,
            labels@.len() == position,
            forall|k: int|
                0 <= k < position ==> (#[trigger] labels@[k])@ == month_abbreviation(
                    label_month(current_month0 as int, k),
                ),
        decreases 12 - position,
    {
        labels.push(abbreviation(month_at(current_month0, position)));
        position += 1;
    }
    labels
}

/// With the current month a month of the year, the row ends with it and
/// starts with the month that follows it.
pub proof fn lemma_row_ends_with_current_month(current_month0: int)
    requires
        0 <= current_month0 < 12,
    ensures
        label_month(current_month0, 11) == current_month0,
        label_month(current_month0, 0) == (current_month0 + 1) % 12,
{
}

/// Each label is the month after the one to its left, December being
/// followed by January.
pub proof fn lemma_row_goes_round_the_year(current_month0: int, position: int)
    requires
        0 <= position,
    ensures
        0 <= label_month(current_month0, position) < 12,
        label_month(current_month0, position + 1) == (label_month(current_month0, position) + 1)
            % 12,
{
}

/// No month stands twice in the row.
pub proof fn lemma_row_has_each_month_once(current_month0: int, left: int, right: int)
    requires
        0 <= left < right < 12,
    ensures
        label_month(current_month0, left) != label_month(current_month0, right),
{
}

} // verus!
