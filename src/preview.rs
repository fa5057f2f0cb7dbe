use vstd::prelude::*;
use vstd::string::*;
use crate::matcher::{truncate_text, truncated};
use crate::results::Results;
use crate::text::{decimal, decimal_string};

verus! {

/// The extension of a path as `std::path::Path::extension` reads it.
pub uninterp spec fn path_extension_of(path: Seq<char>) -> Option<Seq<char>>;

/// The lowercase form of a string as `str::to_lowercase` gives it.
pub uninterp spec fn lowercase_of_str(s: Seq<char>) -> Seq<char>;

/// The strings of a JSON array of strings, as `serde_json` reads it; `None`
/// when the text is not such an array.
pub uninterp spec fn json_string_list(text: Seq<char>) -> Option<Seq<Seq<char>>>;

/// Relies on `std::path::Path::extension`: the part of the file name after
/// its last dot, if the name has one that does not start it.
#[verifier::external_body]
fn extension_of(path: &str) -> (r: Option<String>)
    ensures
        match path_extension_of(path@) {
            Some(e) => r is Some && r->Some_0@ == e,
            None => r is None,
        },
{
    std::path::Path::new(path).extension().map(|e| e.to_string_lossy().into_owned())
}

/// Relies on `str::to_lowercase`.
#[verifier::external_body]
fn lowercase(s: &str) -> (r: String)
    ensures
        r@ == lowercase_of_str(s@),
{
    s.to_lowercase()
}

/// Relies on `serde_json::from_str::<Vec<String>>`.
#[verifier::external_body]
fn parse_json_string_list(text: &str) -> (r: Option<Vec<String>>)
    ensures
        match json_string_list(text@) {
            Some(list) => r is Some && r->Some_0@.len() == list.len() && forall|i: int|
                0 <= i < list.len() ==> #[trigger] r->Some_0@[i]@ == list[i],
            None => r is None,
        },
{
    serde_json::from_str::<Vec<String>>(text).ok()
}

/// File extensions whose files are not shown in the preview.
pub struct BinaryExtensions {
    pub extensions: Vec<String>,
}

impl BinaryExtensions {
    pub open spec fn contains(&self, e: Seq<char>) -> bool {
        exists|i: int| 0 <= i < self.extensions@.len() && #[trigger] self.extensions@[i]@ == e
    }

    /// Reads the set from a JSON array of strings; text that is not one
    /// gives the empty set.
    pub fn from_json(text: &str) -> (r: BinaryExtensions)
        ensures
            match json_string_list(text@) {
                Some(list) => forall|e: Seq<char>| r.contains(e) <==> list.contains(e),
                None => forall|e: Seq<char>| !r.contains(e),
            },
    {
        let parsed = parse_json_string_list(text);
        let r = match parsed {
            Some(list) => BinaryExtensions { extensions: list },
            None => BinaryExtensions { extensions: Vec::new() },
        };
        proof {
            if let Some(list) = json_string_list(text@) {
                assert forall|e: Seq<char>| r.contains(e) <==> list.contains(e) by {
                    if r.contains(e) {
                        let i = choose|i: int|
                            0 <= i < r.extensions@.len() && #[trigger] r.extensions@[i]@ == e;
                        assert(list[i] == e);
                    }
                    if list.contains(e) {
                        let i = choose|i: int| 0 <= i < list.len() && list[i] == e;
                        assert(r.extensions@[i]@ == e);
                    }
                }
            }
        }
        r
    }

    pub fn has(&self, e: &str) -> (r: bool)
        ensures
            r == self.contains(e@),
    {
        let target = String::from_str(e);
        let mut i: usize = 0;
        while i < self.extensions.len()
            invariant
                i <= self.extensions@.len(),
                target@ == e@,
                forall|j: int| 0 <= j < i ==> self.extensions@[j]@ != e@,
            decreases self.extensions@.len() - i,
        {
            if self.extensions[i] == target {
                return true;
            }
            i = i + 1;
        }
        false
    }
}

/// Whether the external renderer should be run on a path: yes, unless its
/// extension, lowercased, is a known binary one.
pub fn should_preview_with_bat(file_path: &str, binary_extensions: &BinaryExtensions) -> (r: bool)
    ensures
        r == match path_extension_of(file_path@) {
            Some(e) => !binary_extensions.contains(lowercase_of_str(e)),
            None => true,
        },
{
    match extension_of(file_path) {
        Some(ext) => {
            let ext_str = lowercase(ext.as_str());
            !binary_extensions.has(ext_str.as_str())
        },
        None => true,
    }
}

/// The message shown instead of a binary file.
pub const BINARY_FILE_MESSAGE: &'static str = "Binary file not available for preview";

/// The arguments for the external renderer: numbered lines, colors, the
/// lines `scroll + 1 ..= scroll + height` (saturating), then the path.
pub open spec fn renderer_args(path: Seq<char>, scroll: nat, height: nat) -> Seq<Seq<char>> {
    let first = if scroll + 1 <= usize::MAX {
        scroll + 1
    } else {
        usize::MAX as nat
    };
    let last = if scroll + height <= usize::MAX {
        scroll + height
    } else {
        usize::MAX as nat
    };
    seq!["-n"@, "--color=always"@, "--line-range="@ + decimal(first) + ":"@ + decimal(last), path]
}

/// What to run for a preview: the renderer's arguments, or the message to
/// show instead when the file is binary.
pub fn preview_arguments(
    path: &str,
    scroll_pos: usize,
    height: u16,
    binary_extensions: &BinaryExtensions,
) -> (r: Result<Vec<String>, String>)
    ensures
        match path_extension_of(path@) {
            Some(e) => binary_extensions.contains(lowercase_of_str(e)),
            None => false,
        } ==> r is Err && r->Err_0@ == BINARY_FILE_MESSAGE@,
        !match path_extension_of(path@) {
            Some(e) => binary_extensions.contains(lowercase_of_str(e)),
            None => false,
        } ==> r is Ok && r->Ok_0@.map_values(|s: String| s@) == renderer_args(
            path@,
            scroll_pos as nat,
            height as nat,
        ),
{
    if !should_preview_with_bat(path, binary_extensions) {
        return Err(String::from_str(BINARY_FILE_MESSAGE));
    }
    let first = decimal_string(scroll_pos.saturating_add(1));
    let last = decimal_string(scroll_pos.saturating_add(height as usize));
    let range = String::from_str("--line-range=").concat(first.as_str()).concat(":").concat(
        last.as_str(),
    );
    let args = vec![
        String::from_str("-n"),
        String::from_str("--color=always"),
        range,
        String::from_str(path),
    ];
    assert(args@.map_values(|s: String| s@) =~= renderer_args(
        path@,
        scroll_pos as nat,
        height as nat,
    ));
    Ok(args)
}

/// The preview pane: the path it shows and how far it is scrolled.
pub struct Preview {
    pub vertical_scroll: usize,
    pub horizontal_scroll: usize,
    pub prev_path: String,
    pub height: u16,
}

impl Preview {
    pub fn new() -> (r: Preview)
        ensures
            r.vertical_scroll == 0,
            r.horizontal_scroll == 0,
            r.height == 0,
            r.prev_path@.len() == 0,
    {
        Preview { vertical_scroll: 0, horizontal_scroll: 0, height: 0, prev_path: String::new() }
    }

    pub fn set_height(&mut self, height: u16)
        ensures
            final(self).height == height,
            final(self).vertical_scroll == old(self).vertical_scroll,
            final(self).horizontal_scroll == old(self).horizontal_scroll,
            final(self).prev_path@ == old(self).prev_path@,
    {
        self.height = height;
    }

    /// The pane title: the path, cut like a result line, between spaces.
    pub fn truncate_title(&self, width: u16) -> (r: String)
        ensures
            r@ == " "@ + truncated(self.prev_path@, width as int) + " "@,
    {
        let cut = truncate_text(self.prev_path.clone(), width);
        String::from_str(" ").concat(cut.as_str()).concat(" ")
    }

    pub fn scroll_up(&mut self)
        ensures
            final(self).vertical_scroll == (if old(self).vertical_scroll >= 2 {
                old(self).vertical_scroll - 2
            } else {
                0
            }),
            final(self).horizontal_scroll == old(self).horizontal_scroll,
            final(self).height == old(self).height,
            final(self).prev_path@ == old(self).prev_path@,
    {
        self.vertical_scroll = self.vertical_scroll.saturating_sub(2);
    }

    pub fn scroll_down(&mut self)
        ensures
            final(self).vertical_scroll == (if old(self).vertical_scroll <= usize::MAX - 2 {
                old(self).vertical_scroll + 2
            } else {
                usize::MAX as int
            }),
            final(self).horizontal_scroll == old(self).horizontal_scroll,
            final(self).height == old(self).height,
            final(self).prev_path@ == old(self).prev_path@,
    {
        self.vertical_scroll = self.vertical_scroll.saturating_add(2);
    }

    pub fn scroll_left(&mut self)
        ensures
            final(self).horizontal_scroll == (if old(self).horizontal_scroll >= 3 {
                old(self).horizontal_scroll - 3
            } else {
                0
            }),
            final(self).vertical_scroll == old(self).vertical_scroll,
            final(self).height == old(self).height,
            final(self).prev_path@ == old(self).prev_path@,
    {
        self.horizontal_scroll = self.horizontal_scroll.saturating_sub(3);
    }

    pub fn scroll_right(&mut self)
        ensures
            final(self).horizontal_scroll == (if old(self).horizontal_scroll <= usize::MAX - 3 {
                old(self).horizontal_scroll + 3
            } else {
                usize::MAX as int
            }),
            final(self).vertical_scroll == old(self).vertical_scroll,
            final(self).height == old(self).height,
            final(self).prev_path@ == old(self).prev_path@,
    {
        self.horizontal_scroll = self.horizontal_scroll.saturating_add(3);
    }

    pub fn reset_scroll_position(&mut self)
        ensures
            final(self).vertical_scroll == 0,
            final(self).horizontal_scroll == 0,
            final(self).height == old(self).height,
            final(self).prev_path@ == old(self).prev_path@,
    {
        self.vertical_scroll = 0;
        self.horizontal_scroll = 0;
    }

    /// Follows the selection: when the selected path differs from the one
    /// shown, it becomes the shown one and both scrolls go back to zero.
    pub fn get_preview_path(&mut self, results: &Results) -> (r: String)
        requires
            results.bounded(),
        ensures
            ({
                let selected = if results.window_offset() + results.row() < results.total() {
                    results.matcher.matches()[(results.window_offset() + results.row()) as int]
                } else {
                    Seq::<char>::empty()
                };
                &&& final(self).prev_path@ == selected
                &&& r@ == selected
                &&& selected != old(self).prev_path@ ==> final(self).vertical_scroll == 0
                    && final(self).horizontal_scroll == 0
                &&& selected == old(self).prev_path@ ==> final(self).vertical_scroll == old(self).vertical_scroll && final(self).horizontal_scroll == old(self).horizontal_scroll
                &&& final(self).height == old(self).height
            }),
    {
        let current_path = match results.get_selected() {
            Some(p) => p,
            None => String::new(),
        };
        if current_path != self.prev_path {
            self.prev_path = current_path;
            self.reset_scroll_position();
        }
        self.prev_path.clone()
    }
}

} // verus!
