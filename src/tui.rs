use vstd::prelude::*;
use vstd::string::*;
use crate::action::Action;
use crate::args::{parse_input_args, parse_line, unicode_whitespace, is_whitespace, Args, ArgError};
use crate::config::Config;
use crate::input::{min_int, Input};
use crate::keypress::{self, handle_keypress_with_config, keyed_input, resolved_action, Event};
use crate::matcher::{apply_op, MatcherOp};
use crate::preview::Preview;
use crate::results::{next_window, previous_window, Results, StatusEvent};
use crate::walk::{regex_accepts, NameRegex};

verus! {

/// What reaches the application loop: a terminal event, a found path, an
/// error from a background task, the end of a walk, or a timer tick.
pub enum AppEvent {
    Event(Event),
    SearchResult(String),
    Error(String),
    SearchComplete,
    Tick,
}

/// Which kind of event came last.
#[derive(Clone, Copy, Debug, PartialEq, Eq, Structural)]
pub enum EventKind {
    Terminal,
    SearchResult,
    Error,
    SearchComplete,
    Tick,
}

/// A search ready to be run off the interface thread.
pub struct SearchJob {
    pub args: Args,
    pub config: Config,
    pub regex: NameRegex,
}

/// What the loop has to do after a key.
pub enum Effect {
    Continue,
    Quit,
    StartSearch(SearchJob),
    CopyToClipboard(String),
}

/// The text that opens the help screen instead of searching.
pub const HELP_COMMAND: &'static str = "/help";

pub const MIN_PREVIEW_WIDTH: u16 = 20;

pub const MAX_PREVIEW_WIDTH: u16 = 80;

pub open spec fn is_blank(s: Seq<char>) -> bool {
    forall|i: int| 0 <= i < s.len() ==> unicode_whitespace(#[trigger] s[i])
}

pub open spec fn sat_sub(a: usize, k: usize) -> usize {
    if a >= k {
        (a - k) as usize
    } else {
        0
    }
}

pub open spec fn sat_add(a: usize, k: usize) -> usize {
    if a <= usize::MAX - k {
        (a + k) as usize
    } else {
        usize::MAX
    }
}

/// The message for a refused query line.
pub open spec fn arg_error_message(e: ArgError) -> Seq<char> {
    match e {
        ArgError::UnknownArgument(w) => "unexpected argument '"@ + w + "' found"@,
        ArgError::MissingValue(w) => "a value is required for '"@ + w + "' but none was supplied"@,
        ArgError::InvalidValue(w) => "invalid value '"@ + w + "'"@,
        ArgError::MissingPattern => "the required pattern was not provided"@,
    }
}

fn blank(s: &str) -> (r: bool)
    ensures
        r == is_blank(s@),
{
    let chars = crate::text::chars_of(s);
    let mut i: usize = 0;
    while i < chars.len()
        invariant
            chars@ == s@,
            i <= chars@.len(),
            forall|j: int| 0 <= j < i ==> unicode_whitespace(#[trigger] s@[j]),
        decreases chars@.len() - i,
    {
        if !is_whitespace(chars[i]) {
            return false;
        }
        i = i + 1;
    }
    true
}

/// What a search request does (see `App::handle_search`).
pub open spec fn searched(o: App, f: App, r: Effect) -> bool {
    match parse_line(o.input.text@) {
        Err(e) => r is Continue && f.input.error_message@ == arg_error_message(e)
            && f.input.text@ == o.input.text@ && f.results.matcher.model()
            == o.results.matcher.model(),
        Ok(a) => {
            let cs = a.case_sensitive || crate::config::has_uppercase(a.pattern->Some_0);
            if regex_accepts(a.pattern->Some_0, !cs) {
                &&& r matches Effect::StartSearch(job) && job.args.view() == a
                    && job.config.case_sensitive == cs && job.regex.source() == a.pattern->Some_0
                    && job.regex.folds_case() == !cs
                &&& f.input.text@.len() == 0
                &&& f.input.error_message@.len() == 0
                &&& f.results.matcher.model().corpus.len() == 0
            } else {
                &&& r is Continue
                &&& f.input.text@ == o.input.text@
                &&& f.results.matcher.model() == o.results.matcher.model()
            }
        },
    }
}

/// `a` with its query line replaced by `input`.
pub open spec fn with_input(a: App, input: Input) -> App {
    App { input, ..a }
}

/// How carrying out `action` takes the state from `o` to `f` with effect
/// `r`.
pub open spec fn dispatched(o: App, f: App, action: Action, r: Effect) -> bool {
    match action {
        Action::Quit => if o.is_help_screen {
            r is Continue && !f.is_help_screen
        } else {
            r is Quit
        },
        Action::SelectNext => r is Continue && (o.results.total() > 0 ==> (
        f.results.window_offset(), f.results.selection()) == next_window(
            o.results.window_offset(),
            o.results.window_height(),
            o.results.selection(),
            o.results.total(),
        )) && (o.results.total() == 0 ==> f.results.selection() == o.results.selection()),
        Action::SelectPrevious => r is Continue && (o.results.total() > 0 ==> (
        f.results.window_offset(), f.results.selection()) == previous_window(
            o.results.window_offset(),
            o.results.window_height(),
            o.results.selection(),
        )) && (o.results.total() == 0 ==> f.results.selection() == o.results.selection()),
        Action::ScrollPreviewUp => r is Continue && f.preview.vertical_scroll == sat_sub(
            o.preview.vertical_scroll,
            2,
        ),
        Action::ScrollPreviewDown => r is Continue && f.preview.vertical_scroll == sat_add(
            o.preview.vertical_scroll,
            2,
        ),
        Action::ScrollPreviewLeft => r is Continue && f.preview.horizontal_scroll == sat_sub(
            o.preview.horizontal_scroll,
            3,
        ),
        Action::ScrollPreviewRight => r is Continue && f.preview.horizontal_scroll == sat_add(
            o.preview.horizontal_scroll,
            3,
        ),
        Action::MoveCursorLeft => r is Continue && f.input.char_index == sat_sub(
            o.input.char_index,
            1,
        ),
        Action::MoveCursorRight => r is Continue && f.input.char_index == min_int(
            sat_add(o.input.char_index, 1) as int,
            o.input.text@.len() as int,
        ),
        Action::IncreasePreview => r is Continue && f.preview_width == min_int(
            o.preview_width + 10,
            MAX_PREVIEW_WIDTH as int,
        ),
        Action::DecreasePreview => r is Continue && f.preview_width == if o.preview_width - 10
            > MIN_PREVIEW_WIDTH {
            o.preview_width - 10
        } else {
            MIN_PREVIEW_WIDTH as int
        },
        Action::Search => if is_blank(o.input.text@) {
            r is Continue && f.input.same_as(o.input)
        } else if o.input.text@ == HELP_COMMAND@ {
            r is Continue && f.is_help_screen == !o.is_help_screen
        } else {
            searched(o, f, r)
        },
        Action::Filter => r is Continue && f.results.window_offset() == 0
            && f.results.selection() == (if o.results.window_height() > 0 {
            Some(0usize)
        } else {
            None
        }) && f.input.same_as(o.input) && f.results.matcher.model() == apply_op(
            o.results.matcher.model(),
            MatcherOp::Reparse(o.input.text@),
        ),
        Action::CopyToClipboard => {
            let (off, row, n) = (o.results.window_offset(), o.results.row(), o.results.total());
            if off + row < n {
                r matches Effect::CopyToClipboard(p) && p@ == o.results.matcher.matches()[(off
                    + row) as int]
            } else {
                r is Continue
            }
        },
        Action::NoOp | Action::Backspace => r is Continue && f.input.same_as(o.input)
            && f.is_help_screen == o.is_help_screen,
    }
}

/// The interface state that the event loop drives.
pub struct App {
    pub input: Input,
    pub results: Results,
    pub preview: Preview,
    pub config: keypress::Config,
    pub is_help_screen: bool,
    pub preview_width: u16,
    pub last_app_event: Option<EventKind>,
}

impl App {
    pub open spec fn wf(&self) -> bool {
        &&& self.input.wf()
        &&& self.results.bounded()
        &&& self.results.matcher.wf()
        &&& MIN_PREVIEW_WIDTH <= self.preview_width <= MAX_PREVIEW_WIDTH
    }

    pub fn new(config: keypress::Config) -> (r: App)
        ensures
            r.wf(),
            !r.is_help_screen,
            r.preview_width == 50,
            r.last_app_event is None,
            r.input.text@.len() == 0,
            r.results.total() == 0,
    {
        App {
            input: Input::new(),
            results: Results::new(),
            preview: Preview::new(),
            config,
            is_help_screen: false,
            preview_width: 50,
            last_app_event: None,
        }
    }

    /// Takes in one event from the channel: a found path goes into the
    /// matcher, an error into the banner; the event is remembered for the
    /// status line.
    pub fn receive(&mut self, event: AppEvent)
        requires
            old(self).wf(),
        ensures
            final(self).wf(),
            final(self).is_help_screen == old(self).is_help_screen,
            final(self).preview_width == old(self).preview_width,
            match event {
                AppEvent::SearchResult(p) => final(self).results.matcher.model() == apply_op(
                    old(self).results.matcher.model(),
                    MatcherOp::Push(p@),
                ) && final(self).last_app_event == Some(EventKind::SearchResult)
                    && final(self).input.same_as(old(self).input),
                AppEvent::Error(m) => final(self).input.error_message@ == m@
                    && final(self).input.text@ == old(self).input.text@
                    && final(self).last_app_event == Some(EventKind::Error)
                    && final(self).results.matcher.model() == old(self).results.matcher.model(),
                AppEvent::SearchComplete => final(self).last_app_event == Some(
                    EventKind::SearchComplete,
                ) && final(self).input.same_as(old(self).input),
                AppEvent::Tick => final(self).last_app_event == Some(EventKind::Tick)
                    && final(self).input.same_as(old(self).input),
                AppEvent::Event(_) => final(self).last_app_event == Some(EventKind::Terminal)
                    && final(self).input.same_as(old(self).input),
            },
    {
        let kind = match event {
            AppEvent::Event(_) => EventKind::Terminal,
            AppEvent::SearchResult(_) => EventKind::SearchResult,
            AppEvent::Error(_) => EventKind::Error,
            AppEvent::SearchComplete => EventKind::SearchComplete,
            AppEvent::Tick => EventKind::Tick,
        };
        match event {
            AppEvent::SearchResult(path) => self.results.matcher.push(path),
            AppEvent::Error(message) => self.input.set_error(message),
            _ => {},
        }
        self.last_app_event = Some(kind);
    }

    /// What the status line reports for the last event.
    pub fn status_event(&self) -> (r: StatusEvent)
        ensures
            self.last_app_event == Some(EventKind::SearchResult) ==> r is Scanning,
            self.last_app_event == Some(EventKind::SearchComplete) ==> r is Complete,
            self.last_app_event != Some(EventKind::SearchResult) && self.last_app_event != Some(
                EventKind::SearchComplete,
            ) ==> r is Idle,
    {
        match self.last_app_event {
            Some(EventKind::SearchResult) => StatusEvent::Scanning,
            Some(EventKind::SearchComplete) => StatusEvent::Complete,
            _ => StatusEvent::Idle,
        }
    }

    pub fn toggle_help_screen(&mut self)
        ensures
            final(self).is_help_screen == !old(self).is_help_screen,
            final(self).input == old(self).input,
            final(self).results == old(self).results,
            final(self).preview == old(self).preview,
            final(self).preview_width == old(self).preview_width,
            final(self).last_app_event == old(self).last_app_event,
    {
        self.is_help_screen = !self.is_help_screen;
    }

    /// Empties the matcher and its pattern before a new walk.
    pub fn start_search(&mut self)
        requires
            old(self).wf(),
        ensures
            final(self).wf(),
            final(self).results.matcher.model().corpus.len() == 0,
            final(self).results.matcher.model().pattern.len() == 0,
            final(self).input.same_as(old(self).input),
            final(self).is_help_screen == old(self).is_help_screen,
            final(self).preview_width == old(self).preview_width,
    {
        self.results.matcher.restart();
        self.results.matcher.find_fuzzy_match("");
        proof { reveal_strlit(""); }
    }

    /// Refilters the results by the query text, from the top of the list.
    pub fn handle_filter(&mut self)
        requires
            old(self).wf(),
        ensures
            final(self).wf(),
            final(self).results.window_offset() == 0,
            final(self).results.selection() == (if old(self).results.window_height() > 0 {
                Some(0usize)
            } else {
                None
            }),
            final(self).results.window_height() == old(self).results.window_height(),
            final(self).results.matcher.model() == apply_op(
                old(self).results.matcher.model(),
                MatcherOp::Reparse(old(self).input.text@),
            ),
            final(self).input.same_as(old(self).input),
            final(self).is_help_screen == old(self).is_help_screen,
            final(self).preview_width == old(self).preview_width,
    {
        self.results.move_to_top();
        self.results.matcher.find_fuzzy_match(self.input.text.as_str());
    }

    /// Starts a search from the query text: a line that does not parse, or
    /// whose pattern does not compile, leaves the text for correction with
    /// the reason in the banner; otherwise the matcher is emptied, the text
    /// cleared, and the search handed back to be run.
    pub fn handle_search(&mut self, available_threads: usize) -> (r: Effect)
        requires
            old(self).wf(),
        ensures
            final(self).wf(),
            final(self).is_help_screen == old(self).is_help_screen,
            final(self).preview_width == old(self).preview_width,
            searched(*old(self), *final(self), r),
    {
        match parse_input_args(self.input.text.as_str()) {
            Err(e) => {
                let message = e.message();
                self.input.set_error(message);
                Effect::Continue
            },
            Ok(args) => {
                let config = Config::build(&args, available_threads);
                match NameRegex::new(args.pattern.as_str(), &config) {
                    Err(message) => {
                        self.input.set_error(message);
                        Effect::Continue
                    },
                    Ok(regex) => {
                        self.start_search();
                        self.input.clear_input();
                        Effect::StartSearch(SearchJob { args, config, regex })
                    },
                }
            },
        }
    }

    /// Carries out an action.
    pub fn dispatch(&mut self, action: Action, available_threads: usize) -> (r: Effect)
        requires
            old(self).wf(),
        ensures
            final(self).wf(),
            action != Action::Quit ==> !(r is Quit),
            dispatched(*old(self), *final(self), action, r),
    {
        match action {
            Action::Quit => {
                if self.is_help_screen {
                    self.toggle_help_screen();
                    Effect::Continue
                } else {
                    Effect::Quit
                }
            },
            Action::SelectNext => {
                if !self.results.matcher.is_empty() {
                    self.results.select_next();
                }
                Effect::Continue
            },
            Action::SelectPrevious => {
                if !self.results.matcher.is_empty() {
                    self.results.select_previous();
                }
                Effect::Continue
            },
            Action::ScrollPreviewUp => {
                self.preview.scroll_up();
                Effect::Continue
            },
            Action::ScrollPreviewDown => {
                self.preview.scroll_down();
                Effect::Continue
            },
            Action::ScrollPreviewLeft => {
                self.preview.scroll_left();
                Effect::Continue
            },
            Action::ScrollPreviewRight => {
                self.preview.scroll_right();
                Effect::Continue
            },
            Action::MoveCursorLeft => {
                self.input.move_cursor_left();
                Effect::Continue
            },
            Action::MoveCursorRight => {
                self.input.move_cursor_right();
                Effect::Continue
            },
            Action::IncreasePreview => {
                self.preview_width = if self.preview_width + 10 < MAX_PREVIEW_WIDTH {
                    self.preview_width + 10
                } else {
                    MAX_PREVIEW_WIDTH
                };
                Effect::Continue
            },
            Action::DecreasePreview => {
                self.preview_width = if self.preview_width - 10 > MIN_PREVIEW_WIDTH {
                    self.preview_width - 10
                } else {
                    MIN_PREVIEW_WIDTH
                };
                Effect::Continue
            },
            Action::Search => {
                if blank(self.input.text.as_str()) {
                    Effect::Continue
                } else if self.input.text == String::from_str(HELP_COMMAND) {
                    self.toggle_help_screen();
                    Effect::Continue
                } else {
                    self.handle_search(available_threads)
                }
            },
            Action::Filter => {
                self.handle_filter();
                Effect::Continue
            },
            Action::CopyToClipboard => match self.results.get_selected() {
                Some(path) => Effect::CopyToClipboard(path),
                None => Effect::Continue,
            },
            Action::NoOp | Action::Backspace => Effect::Continue,
        }
    }

    /// Resolves a terminal event to an action and carries it out.
    pub fn handle_events(&mut self, key_event: Event, available_threads: usize) -> (r: Effect)
        requires
            old(self).wf(),
            old(self).input.text@.len() < usize::MAX,
        ensures
            final(self).wf(),
            resolved_action(&old(self).config, key_event) == Action::Quit && !old(self).is_help_screen ==> r is Quit,
            resolved_action(&old(self).config, key_event) != Action::Quit ==> !(r is Quit),
            exists|typed: Input|
                keyed_input(&old(self).config, old(self).input, typed, key_event) && dispatched(
                    #[trigger] with_input(*old(self), typed),
                    *final(self),
                    resolved_action(&old(self).config, key_event),
                    r,
                ),
    {
        let action = handle_keypress_with_config(&mut self.input, key_event, &self.config);
        let ghost typed = self.input;
        assert(*self == with_input(*old(self), typed));
        self.dispatch(action, available_threads)
    }

    /// Rows of the input box: three, or five with an error banner.
    pub fn input_height(&self) -> (r: u16)
        ensures
            r == (if self.input.error_message@.len() == 0 {
                3u16
            } else {
                5u16
            }),
    {
        if self.input.error_message.as_str().unicode_len() == 0 {
            3
        } else {
            5
        }
    }

    /// Rows of the input line and of the error banner within the input box.
    pub fn input_split(&self) -> (r: (u16, u16))
        ensures
            r == (if self.input.error_message@.len() == 0 {
                (5u16, 0u16)
            } else {
                (3u16, 2u16)
            }),
    {
        if self.input.error_message.as_str().unicode_len() == 0 {
            (5, 0)
        } else {
            (3, 2)
        }
    }

    /// Percent widths of the left (results and input) and right (preview)
    /// panes; without results the preview pane gets nothing.
    pub fn pane_percentages(&self, has_results: bool) -> (r: (u16, u16))
        requires
            self.preview_width <= 100,
        ensures
            has_results ==> r == (self.preview_width, (100 - self.preview_width) as u16),
            !has_results ==> r == (100u16, 0u16),
    {
        if has_results {
            (self.preview_width, 100 - self.preview_width)
        } else {
            (100, 0)
        }
    }
}

} // verus!
