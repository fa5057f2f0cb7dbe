use vstd::prelude::*;

verus! {

/// What a key press asks the application to do.
#[derive(Clone, Copy, Debug, PartialEq, Eq, Structural)]
pub enum Action {
    NoOp,
    SelectNext,
    SelectPrevious,
    ScrollPreviewUp,
    ScrollPreviewDown,
    ScrollPreviewLeft,
    ScrollPreviewRight,
    MoveCursorLeft,
    MoveCursorRight,
    IncreasePreview,
    DecreasePreview,
    CopyToClipboard,
    Search,
    Filter,
    Quit,
    Backspace,
}

} // verus!
