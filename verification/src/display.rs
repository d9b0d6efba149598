use crate::text::same_text;
use vstd::prelude::*;

verus! {

/// The form in which progress is shown.
#[derive(Clone, Copy, Debug, PartialEq, Eq, Structural)]
pub enum ProgressDisplay {
    /// Quiet mode: nothing is drawn at all.
    Hidden,
    /// The total is known: a bar of that length.
    Bar { length: u64 },
    /// The total is unknown: a spinner.
    Spinner,
}

/// The colour in which a message is printed.
#[derive(Clone, Copy, Debug, PartialEq, Eq, Structural)]
pub enum Tint {
    Green,
    Red,
    Plain,
}

/// The display for a transfer: hidden in quiet mode whatever the total, else
/// a bar where the total is known and a spinner where it is not.
pub open spec fn display_of(quiet_mode: bool, length: Option<u64>) -> ProgressDisplay {
    if quiet_mode {
        ProgressDisplay::Hidden
    } else {
        match length {
            Some(length) => ProgressDisplay::Bar { length },
            None => ProgressDisplay::Spinner,
        }
    }
}

/// The tint that a colour name stands for: `green` and `red` as written, in
/// small letters; any other name leaves the text plain.
pub open spec fn tint_named(color: Seq<char>) -> Tint {
    if color == "green"@ {
        Tint::Green
    } else if color == "red"@ {
        Tint::Red
    } else {
        Tint::Plain
    }
}

/// Chooses the progress display.
pub fn progress_display(quiet_mode: bool, length: Option<u64>) -> (display: ProgressDisplay)
    ensures
        display == display_of(quiet_mode, length),
{
    if quiet_mode {
        ProgressDisplay::Hidden
    } else {
        match length {
            Some(length) => ProgressDisplay::Bar { length },
            None => ProgressDisplay::Spinner,
        }
    }
}

/// Chooses the tint for a colour name.
pub fn tint_of(color: &str) -> (tint: Tint)
    ensures
        tint == tint_named(color@),
{
    if same_text(color, "green") {
        Tint::Green
    } else if same_text(color, "red") {
        Tint::Red
    } else {
        Tint::Plain
    }
}

} // verus!
