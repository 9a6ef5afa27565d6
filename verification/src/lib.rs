//! Verified model of the RGBcraft desktop shell prototypes.
//!
//! Two small programs share the name "RGBcraft": one builds a static header
//! bar with a right-aligned group of widgets, the other opens a fixed-size
//! window holding a single button that dispatches one no-op event. This
//! crate holds the part of each program that can be stated and proved: the
//! retained-mode tree each one hands its toolkit, the layout-unit
//! arithmetic, and the state/update/view triad of the windowed program.
//! The toolkit calls themselves (opening windows, running event loops) live
//! outside the library.

pub mod header;
pub mod shell;
pub mod units;

use vstd::prelude::*;

verus! {

/// Both programs set the same window title.
pub proof fn lemma_titles_agree()
    ensures
        header::spec_title() == shell::spec_title(),
        header::spec_title() == "RGBcraft"@,
{
}

} // verus!
