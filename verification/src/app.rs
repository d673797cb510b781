//! The session: the lines captured so far, the filtered view over them, the
//! selected entry and the preview that follows it.

use vstd::prelude::*;
use vstd::string::*;
use vstd::utf8::encode_utf8;
use crate::filter::active_matcher;
use crate::filter::as_ints;
use crate::filter::find_highlights;
use crate::filter::highlight_spans;
use crate::filter::kept_indices;
use crate::filter::lemma_kept_indices_push;
use crate::filter::line_matches;
use crate::filter::line_passes;
use crate::filter::matching_indices;
use crate::filter::padded;
use crate::filter::passes_matcher;
use crate::filter::query_matcher;
use crate::filter::verdicts;
use crate::matcher::spans_in_order;
use crate::text::command_line;
use crate::text::command_text;
use crate::text::context_line;
use crate::text::context_text;
use crate::text::numbered;
use crate::text::numbered_text;
use crate::text::texts;
use crate::theme::bg_color;
use crate::theme::detect_theme;
use crate::theme::fg_color;
use crate::theme::theme_or_light;
use crate::theme::Color;
use crate::theme::Style;
use crate::theme::ThemeMode;

verus! {

/// Lines of context kept above the selected line in the preview.
pub const LEAD: usize = 3;

/// The panel that has the input focus.
#[derive(Debug, PartialEq, Eq, Clone, Copy, Structural)]
pub enum Panel {
    Input,
    Output,
    Preview,
}

/// What the background workers report to the session.
pub enum AppEvent {
    /// One line of the command's output.
    Output(String),
    /// Time to redraw.
    Tick,
    /// The command ended with this exit code.
    CommandExit(i32),
    /// The process id of the command, known once it runs.
    ChildPid(i32),
}

/// The state of one session.
pub struct App {
    /// Every captured line, in arrival order.
    pub output_lines: Vec<String>,
    /// The numbered text of each entry of the filtered view.
    pub filtered_lines: Vec<String>,
    /// The filtered view: indices into `output_lines`, ascending.
    pub filtered_indices: Vec<usize>,
    /// The selected entry of the filtered view.
    pub selected_index: usize,
    /// The first line of `output_lines` that the preview shows.
    pub preview_scroll: usize,
    /// Whether the command is still running.
    pub running: bool,
    /// The exit code of the command, once it has ended.
    pub exit_code: Option<i32>,
    /// The command line that the session runs.
    pub command_info: String,
    /// The process id of the command, once it is known.
    pub child_pid: Option<i32>,
    /// The panel that has the input focus.
    pub active_panel: Panel,
    /// The query that filters the view: a regular expression, or text that
    /// is none, or nothing.
    pub search_query: String,
    /// The edit cursor in the query, counted in characters.
    pub cursor_position: usize,
    /// The colour scheme that the session is painted in.
    pub theme_mode: ThemeMode,
}

/// Top of the preview for a selected line: `LEAD` lines above it, or the
/// first line where there are fewer above.
pub open spec fn lead_scroll(index: usize) -> usize {
    if index >= LEAD {
        (index - LEAD) as usize
    } else {
        0
    }
}

/// The panel after `panel` in the focus cycle.
pub open spec fn panel_after(panel: Panel) -> Panel {
    match panel {
        Panel::Input => Panel::Output,
        Panel::Output => Panel::Preview,
        Panel::Preview => Panel::Input,
    }
}

/// The panel before `panel` in the focus cycle.
pub open spec fn panel_before(panel: Panel) -> Panel {
    match panel {
        Panel::Input => Panel::Preview,
        Panel::Output => Panel::Input,
        Panel::Preview => Panel::Output,
    }
}

/// The numbered texts of the view `shown` over `lines`.
pub open spec fn entries_of(shown: Seq<int>, lines: Seq<Seq<char>>) -> Seq<Seq<char>> {
    Seq::new(shown.len(), |k: int| numbered_text((shown[k] + 1) as nat, lines[shown[k]]))
}

impl App {
    /// The texts of the captured lines.
    pub open spec fn lines(&self) -> Seq<Seq<char>> {
        texts(self.output_lines@)
    }

    /// The filtered view as mathematical indices.
    pub open spec fn shown(&self) -> Seq<int> {
        as_ints(self.filtered_indices@)
    }

    /// The texts of the entries of the filtered view.
    pub open spec fn entries(&self) -> Seq<Seq<char>> {
        texts(self.filtered_lines@)
    }

    /// The captured line under the selection, if the selection points at an
    /// entry of the view.
    pub open spec fn selected_line(&self) -> Option<usize> {
        if self.selected_index < self.filtered_indices@.len() {
            Some(self.filtered_indices@[self.selected_index as int])
        } else {
            None
        }
    }

    /// Where the preview belongs: led by the selected line, or left where it
    /// is while nothing is selected.
    pub open spec fn scroll_target(&self) -> usize {
        match self.selected_line() {
            Some(index) => lead_scroll(index),
            None => self.preview_scroll,
        }
    }

    /// The session with the preview moved to where it belongs.
    pub open spec fn scrolled(self) -> App {
        App { preview_scroll: self.scroll_target(), ..self }
    }

    /// The view shows what the query lets through, entry by entry, and the
    /// selection and the preview fit it.
    pub open spec fn view_ok(&self) -> bool {
        &&& self.shown() == matching_indices(self.search_query@, self.lines())
        &&& self.entries() == entries_of(self.shown(), self.lines())
        &&& self.shown().len() == 0 ==> self.selected_index == 0
        &&& self.shown().len() > 0 ==> self.selected_index < self.shown().len()
            && self.preview_scroll == self.scroll_target()
    }

    /// The invariant of a session: a consistent view, the cursor inside the
    /// query, and a run that is over exactly when an exit code is known.
    pub open spec fn inv(&self) -> bool {
        &&& self.view_ok()
        &&& self.cursor_position <= self.search_query@.len()
        &&& self.running == (self.exit_code is None)
    }

    /// Both sessions belong to the same run of the same command.
    pub open spec fn same_run(&self, other: &App) -> bool {
        &&& self.running == other.running
        &&& self.exit_code == other.exit_code
        &&& self.command_info == other.command_info
        &&& self.child_pid == other.child_pid
        &&& self.theme_mode == other.theme_mode
    }

    /// Both sessions have the same focus, query and cursor.
    pub open spec fn same_input(&self, other: &App) -> bool {
        &&& self.active_panel == other.active_panel
        &&& self.search_query == other.search_query
        &&& self.cursor_position == other.cursor_position
    }

    /// A session that has just started `command` with `args`: nothing
    /// captured, nothing shown, an empty query, focus on the query panel.
    pub open spec fn is_fresh(&self, command: Seq<char>, args: Seq<Seq<char>>) -> bool {
        &&& self.output_lines@.len() == 0
        &&& self.filtered_lines@.len() == 0
        &&& self.filtered_indices@.len() == 0
        &&& self.selected_index == 0
        &&& self.preview_scroll == 0
        &&& self.running
        &&& self.exit_code is None
        &&& self.command_info@ == command_line(command, args)
        &&& self.child_pid is None
        &&& self.active_panel == Panel::Input
        &&& self.search_query@.len() == 0
        &&& self.cursor_position == 0
    }

    /// In a consistent view there is one entry text for each index.
    pub proof fn lemma_view_lengths(&self)
        requires
            self.view_ok(),
        ensures
            self.filtered_lines@.len() == self.filtered_indices@.len(),
            self.shown().len() == self.filtered_indices@.len(),
            self.shown().len() <= usize::MAX,
    {
        assert(self.filtered_indices.len() == self.filtered_indices@.len());
        assert(self.entries().len() == self.filtered_lines@.len());
        assert(entries_of(self.shown(), self.lines()).len() == self.shown().len());
    }

    /// A fresh session satisfies the invariant.
    pub proof fn lemma_fresh_inv(&self, command: Seq<char>, args: Seq<Seq<char>>)
        requires
            self.is_fresh(command, args),
        ensures
            self.inv(),
    {
        assert(self.lines() =~= Seq::<Seq<char>>::empty());
        assert(self.shown() =~= matching_indices(self.search_query@, self.lines()));
        assert(self.entries() =~= entries_of(self.shown(), self.lines()));
    }

    /// Starts a session for `command` under a given colour scheme.
    pub fn with_theme(command: &str, args: &[String], theme: ThemeMode) -> (app: App)
        ensures
            app.is_fresh(command@, texts(args@)),
            app.theme_mode == theme,
            app.inv(),
    {
        let app = App {
            output_lines: Vec::new(),
            filtered_lines: Vec::new(),
            filtered_indices: Vec::new(),
            selected_index: 0,
            preview_scroll: 0,
            running: true,
            exit_code: None,
            command_info: command_text(command, args),
            child_pid: None,
            active_panel: Panel::Input,
            search_query: String::new(),
            cursor_position: 0,
            theme_mode: theme,
        };
        proof {
            app.lemma_fresh_inv(command@, texts(args@));
        }
        app
    }

    /// Starts a session for `command`, painted in the desktop's colour scheme
    /// or in the light one where the desktop names none.
    pub fn new(command: &str, args: &[String]) -> (app: App)
        ensures
            app.is_fresh(command@, texts(args@)),
            app.inv(),
    {
        let theme = theme_or_light(detect_theme());
        App::with_theme(command, args, theme)
    }

    /// The session after the focus moved one panel forward. Entering the
    /// query panel puts the cursor behind the query.
    pub open spec fn after_next_panel(self) -> App {
        match self.active_panel {
            Panel::Preview => App {
                active_panel: Panel::Input,
                cursor_position: self.search_query@.len() as usize,
                ..self
            },
            _ => App { active_panel: panel_after(self.active_panel), ..self },
        }
    }

    /// The session after the focus moved one panel backward. Entering the
    /// query panel puts the cursor behind the query.
    pub open spec fn after_prev_panel(self) -> App {
        match self.active_panel {
            Panel::Output => App {
                active_panel: Panel::Input,
                cursor_position: self.search_query@.len() as usize,
                ..self
            },
            _ => App { active_panel: panel_before(self.active_panel), ..self },
        }
    }

    /// Moves the focus one panel forward.
    pub fn next_panel(&mut self)
        ensures
            *final(self) == old(self).after_next_panel(),
            old(self).inv() ==> final(self).inv(),
    {
        match self.active_panel {
            Panel::Input => {
                self.active_panel = Panel::Output;
            },
            Panel::Output => {
                self.active_panel = Panel::Preview;
            },
            Panel::Preview => {
                self.cursor_position = self.search_query.as_str().unicode_len();
                self.active_panel = Panel::Input;
            },
        }
    }

    /// Moves the focus one panel backward.
    pub fn prev_panel(&mut self)
        ensures
            *final(self) == old(self).after_prev_panel(),
            old(self).inv() ==> final(self).inv(),
    {
        match self.active_panel {
            Panel::Input => {
                self.active_panel = Panel::Preview;
            },
            Panel::Output => {
                self.cursor_position = self.search_query.as_str().unicode_len();
                self.active_panel = Panel::Input;
            },
            Panel::Preview => {
                self.active_panel = Panel::Output;
            },
        }
    }

    /// The border style of `panel`: highlighted and bold while it has the
    /// focus, plain foreground otherwise.
    pub open spec fn block_style(&self, panel: Panel) -> Style {
        if self.active_panel == panel {
            Style { fg: Color::Yellow, bold: true }
        } else {
            Style { fg: fg_color(self.theme_mode), bold: false }
        }
    }

    /// The border style of `panel`.
    pub fn get_block_style(&self, panel: Panel) -> (style: Style)
        ensures
            style == self.block_style(panel),
    {
        if self.active_panel == panel {
            Style { fg: self.get_hl_color(), bold: true }
        } else {
            Style { fg: self.get_fg_color(), bold: false }
        }
    }

    /// The session after the command ended with `code`.
    pub open spec fn after_exit(self, code: i32) -> App {
        App { exit_code: Some(code), running: false, ..self }
    }

    /// Records that the command ended. Lines that arrive later are still
    /// captured.
    pub fn set_exit_code(&mut self, code: i32)
        ensures
            *final(self) == old(self).after_exit(code),
            old(self).inv() ==> final(self).inv(),
    {
        self.exit_code = Some(code);
        self.running = false;
    }

    /// Records the process id of the command.
    pub fn set_child_pid(&mut self, pid: i32)
        ensures
            *final(self) == (App { child_pid: Some(pid), ..*old(self) }),
            old(self).inv() ==> final(self).inv(),
    {
        self.child_pid = Some(pid);
    }

    /// The foreground colour of the session's scheme.
    pub fn get_fg_color(&self) -> (color: Color)
        ensures
            color == fg_color(self.theme_mode),
    {
        match self.theme_mode {
            ThemeMode::Dark => Color::White,
            ThemeMode::Light => Color::Black,
            ThemeMode::Unspecified => Color::Black,
        }
    }

    /// The background colour of the session's scheme.
    pub fn get_bg_color(&self) -> (color: Color)
        ensures
            color == bg_color(self.theme_mode),
    {
        match self.theme_mode {
            ThemeMode::Dark => Color::Black,
            ThemeMode::Light => Color::White,
            ThemeMode::Unspecified => Color::White,
        }
    }

    /// Line numbers are dark gray under every scheme.
    pub fn get_line_number_color(&self) -> (color: Color)
        ensures
            color == Color::DarkGray,
    {
        match self.theme_mode {
            ThemeMode::Dark => Color::DarkGray,
            ThemeMode::Light => Color::DarkGray,
            ThemeMode::Unspecified => Color::DarkGray,
        }
    }

    /// Highlights are yellow under every scheme.
    pub fn get_hl_color(&self) -> (color: Color)
        ensures
            color == Color::Yellow,
    {
        Color::Yellow
    }

    /// Moves the preview to where the selection leads it.
    pub fn update_preview_scroll(&mut self)
        ensures
            *final(self) == old(self).scrolled(),
    {
        if self.filtered_indices.len() == 0 || self.selected_index >= self.filtered_indices.len() {
            return ;
        }
        let line_index: usize = self.filtered_indices[self.selected_index];
        if line_index >= LEAD {
            self.preview_scroll = line_index - LEAD;
        } else {
            self.preview_scroll = 0;
        }
    }

    /// The session after the selection moved one entry down, wrapping from
    /// the last entry to the first. Nothing moves in an empty view.
    pub open spec fn after_next(self) -> App {
        if self.filtered_lines@.len() == 0 {
            self
        } else {
            (App {
                selected_index: ((self.selected_index + 1) % (
                self.filtered_lines@.len() as int)) as usize,
                ..self
            }).scrolled()
        }
    }

    /// The session after the selection moved one entry up, wrapping from the
    /// first entry to the last. Nothing moves in an empty view.
    pub open spec fn after_prev(self) -> App {
        if self.filtered_lines@.len() == 0 {
            self
        } else if self.selected_index > 0 {
            (App { selected_index: (self.selected_index - 1) as usize, ..self }).scrolled()
        } else {
            (App { selected_index: (self.filtered_lines@.len() - 1) as usize, ..self }).scrolled()
        }
    }

    /// Selects the next entry of the view.
    pub fn select_next(&mut self)
        ensures
            *final(self) == old(self).after_next(),
            old(self).inv() ==> final(self).inv(),
    {
        proof {
            if self.inv() {
                self.lemma_view_lengths();
            }
        }
        let len: usize = self.filtered_lines.len();
        if len != 0 {
            let at: usize = self.selected_index % len;
            assert((self.selected_index + 1) % (len as int) == if at + 1 == len {
                0
            } else {
                at + 1
            }) by (nonlinear_arith)
                requires
                    len > 0,
                    at == self.selected_index % len,
            ;
            self.selected_index = if at + 1 == len {
                0
            } else {
                at + 1
            };
            self.update_preview_scroll();
        }
    }

    /// Selects the previous entry of the view.
    pub fn select_prev(&mut self)
        ensures
            *final(self) == old(self).after_prev(),
            old(self).inv() ==> final(self).inv(),
    {
        proof {
            if self.inv() {
                self.lemma_view_lengths();
            }
        }
        if self.filtered_lines.len() != 0 {
            if self.selected_index > 0 {
                self.selected_index = self.selected_index - 1;
            } else {
                self.selected_index = self.filtered_lines.len() - 1;
            }
            self.update_preview_scroll();
        }
    }

    /// Where the preview stands after the view changed: led by the selected
    /// line, or left at `previous` while nothing is selected.
    pub open spec fn scroll_after(&self, previous: usize) -> usize {
        match self.selected_line() {
            Some(index) => lead_scroll(index),
            None => previous,
        }
    }

    /// `self` is `before` with `line` captured. The view gains the new line
    /// exactly if `keep` holds; the selection stays and the preview follows
    /// it.
    pub open spec fn is_append_of(&self, before: &App, line: String, keep: bool) -> bool {
        let n = before.output_lines@.len();
        &&& self.output_lines@ == before.output_lines@.push(line)
        &&& self.same_run(before)
        &&& self.same_input(before)
        &&& self.selected_index == before.selected_index
        &&& if keep {
            &&& self.filtered_indices@ == before.filtered_indices@.push(n as usize)
            &&& self.entries() == before.entries().push(numbered_text(n + 1, line@))
            &&& self.preview_scroll == self.scroll_after(before.preview_scroll)
        } else {
            &&& self.filtered_indices@ == before.filtered_indices@
            &&& self.filtered_lines@ == before.filtered_lines@
            &&& self.preview_scroll == before.preview_scroll
        }
    }

    /// `self` is `before` with the view rebuilt from one verdict per line:
    /// the kept lines are shown, the first entry is selected and the preview
    /// follows it.
    pub open spec fn is_view_of(&self, before: &App, keep: Seq<bool>) -> bool {
        &&& self.output_lines@ == before.output_lines@
        &&& self.same_run(before)
        &&& self.same_input(before)
        &&& self.shown() == kept_indices(padded(keep, before.output_lines@.len()))
        &&& self.entries() == entries_of(self.shown(), self.lines())
        &&& self.selected_index == 0
        &&& self.preview_scroll == self.scroll_after(before.preview_scroll)
    }

    /// `self` is `before` right after a search with the query that `self`
    /// holds: the same lines and the same run, a consistent view, the first
    /// entry selected, and the preview following it.
    pub open spec fn is_search_of(&self, before: &App) -> bool {
        &&& self.output_lines@ == before.output_lines@
        &&& self.same_run(before)
        &&& self.view_ok()
        &&& self.selected_index == 0
        &&& self.preview_scroll == self.scroll_after(before.preview_scroll)
    }

    /// Captures `line` and, if `keep` holds, shows it as the last entry of
    /// the view.
    pub fn push_line(&mut self, line: String, keep: bool)
        ensures
            final(self).is_append_of(old(self), line, keep),
            old(self).view_ok() && keep == line_passes(old(self).search_query@, line@)
                ==> final(self).view_ok(),
            old(self).inv() && keep == line_passes(old(self).search_query@, line@)
                ==> final(self).inv(),
    {
        let ghost before = *self;
        self.output_lines.push(line);
        let number: usize = self.output_lines.len();
        if keep {
            let entry: String = numbered(number, self.output_lines[number - 1].as_str());
            self.filtered_lines.push(entry);
            self.filtered_indices.push(number - 1);
            self.update_preview_scroll();
            assert(self.entries() =~= before.entries().push(
                numbered_text(before.output_lines@.len() + 1, line@),
            ));
        }
        proof {
            if before.view_ok() && keep == line_passes(before.search_query@, line@) {
                App::lemma_append_keeps_view(before, *self, line);
            }
        }
    }

    /// Captures one line of output. The view gains it if the query lets it
    /// through: always under an empty query or one that does not compile.
    pub fn add_output(&mut self, line: String)
        ensures
            final(self).is_append_of(
                old(self),
                line,
                line_passes(old(self).search_query@, line@),
            ),
            old(self).view_ok() ==> final(self).view_ok(),
            old(self).inv() ==> final(self).inv(),
    {
        let keep: bool = line_matches(self.search_query.as_str(), line.as_str());
        self.push_line(line, keep);
    }

    /// Rebuilds the view from one verdict per captured line; a line without
    /// a verdict is not shown. The first entry becomes the selected one.
    pub fn show_kept(&mut self, keep: &Vec<bool>)
        ensures
            final(self).is_view_of(old(self), keep@),
    {
        let ghost before = *self;
        let ghost all = padded(keep@, before.output_lines@.len());
        self.filtered_lines = Vec::new();
        self.filtered_indices = Vec::new();
        self.selected_index = 0;
        let mut i: usize = 0;
        proof {
            assert(all.take(0) =~= Seq::<bool>::empty());
            assert(self.shown() =~= kept_indices(all.take(0)));
            assert(self.entries() =~= entries_of(self.shown(), self.lines()));
        }
        while i < self.output_lines.len()
            invariant
                i <= self.output_lines@.len(),
                all == padded(keep@, before.output_lines@.len()),
                self.output_lines@ == before.output_lines@,
                self.same_run(&before),
                self.same_input(&before),
                self.selected_index == 0,
                self.preview_scroll == before.preview_scroll,
                self.filtered_lines@.len() == self.filtered_indices@.len(),
                self.shown() == kept_indices(all.take(i as int)),
                self.entries() == entries_of(self.shown(), self.lines()),
            decreases self.output_lines@.len() - i,
        {
            let ghost shown_before = self.shown();
            let ghost entries_before = self.entries();
            proof {
                assert(all.take(i + 1) =~= all.take(i as int).push(all[i as int]));
                lemma_kept_indices_push(all.take(i as int), all[i as int]);
            }
            if i < keep.len() && keep[i] {
                let entry: String = numbered(i + 1, self.output_lines[i].as_str());
                self.filtered_lines.push(entry);
                self.filtered_indices.push(i);
                proof {
                    assert(self.shown() =~= shown_before.push(i as int));
                    assert(self.entries() =~= entries_before.push(
                        numbered_text((i + 1) as nat, self.lines()[i as int]),
                    ));
                    assert(self.entries() =~= entries_of(self.shown(), self.lines()));
                }
            }
            i = i + 1;
        }
        proof {
            assert(all.take(i as int) =~= all);
        }
        self.update_preview_scroll();
    }

    /// Applies the current query to everything captured so far: the view
    /// becomes the lines that the query lets through, the first entry is
    /// selected, and the preview follows it. An empty query and one that
    /// does not compile show every line.
    pub fn update_search(&mut self)
        ensures
            final(self).is_search_of(old(self)),
            final(self).same_input(old(self)),
            old(self).inv() ==> final(self).inv(),
    {
        let ghost query = self.search_query@;
        let ghost lines = self.lines();
        let matcher = query_matcher(self.search_query.as_str());
        let mut keep: Vec<bool> = Vec::new();
        let mut i: usize = 0;
        while i < self.output_lines.len()
            invariant
                i <= self.output_lines@.len(),
                lines == self.lines(),
                query == self.search_query@,
                matcher == active_matcher(query),
                keep@ =~= verdicts(query, lines).take(i as int),
            decreases self.output_lines@.len() - i,
        {
            let verdict: bool = passes_matcher(&matcher, self.output_lines[i].as_str());
            keep.push(verdict);
            i = i + 1;
        }
        proof {
            assert(keep@ =~= verdicts(query, lines));
            assert(padded(keep@, self.output_lines@.len()) =~= verdicts(query, lines));
        }
        self.show_kept(&keep);
        proof {
            assert(self.lines() =~= lines);
        }
    }

    /// Replaces the query and applies it.
    pub fn set_query(&mut self, query: String)
        ensures
            final(self).is_search_of(old(self)),
            final(self).search_query == query,
            final(self).active_panel == old(self).active_panel,
            final(self).cursor_position == old(self).cursor_position,
    {
        self.search_query = query;
        self.update_search();
    }

    /// The spans of `line` that the current query matches, for highlighting:
    /// byte offsets, ascending and without overlap; none under an empty
    /// query or one that does not compile.
    pub fn find_matches_in_line(&self, line: &str) -> (r: Vec<(usize, usize)>)
        ensures
            r@ == highlight_spans(self.search_query@, line@),
            spans_in_order(r@, encode_utf8(line@).len()),
    {
        find_highlights(self.search_query.as_str(), line)
    }

    /// `self` is `before` with `event` applied: output is captured, an exit
    /// code or a process id is recorded, and a tick changes nothing.
    pub open spec fn is_event_of(&self, before: &App, event: AppEvent) -> bool {
        match event {
            AppEvent::Output(line) => self.is_append_of(
                before,
                line,
                line_passes(before.search_query@, line@),
            ),
            AppEvent::Tick => *self == *before,
            AppEvent::CommandExit(code) => *self == before.after_exit(code),
            AppEvent::ChildPid(pid) => *self == (App { child_pid: Some(pid), ..*before }),
        }
    }

    /// Applies one report of the background workers. Output is captured
    /// whether or not the command still runs.
    pub fn apply_event(&mut self, event: AppEvent)
        ensures
            final(self).is_event_of(old(self), event),
            old(self).inv() ==> final(self).inv(),
    {
        match event {
            AppEvent::Output(line) => {
                self.add_output(line);
            },
            AppEvent::CommandExit(code) => {
                self.set_exit_code(code);
            },
            AppEvent::ChildPid(pid) => {
                self.set_child_pid(pid);
            },
            AppEvent::Tick => {},
        }
    }

    /// Every captured line as the preview writes it: numbered from one, the
    /// line at `selected` marked.
    pub open spec fn context_of(&self, selected: usize) -> Seq<Seq<char>> {
        Seq::new(
            self.output_lines@.len(),
            |i: int| context_text(i == selected, (i + 1) as nat, self.lines()[i]),
        )
    }

    /// The line behind the last one that a preview of `height` lines shows.
    pub open spec fn window_end(&self, height: usize) -> int {
        if self.preview_scroll + height <= self.output_lines@.len() {
            self.preview_scroll + height
        } else {
            self.output_lines@.len() as int
        }
    }

    /// The part of the preview that a window of `height` lines shows: the
    /// lines from the scroll offset up to the window's end.
    pub open spec fn window_of(&self, selected: usize, height: usize) -> Seq<Seq<char>> {
        if self.preview_scroll <= self.window_end(height) {
            self.context_of(selected).subrange(
                self.preview_scroll as int,
                self.window_end(height),
            )
        } else {
            Seq::empty()
        }
    }

    /// Where in a window of `height` lines the line at `selected` stands, if
    /// the window shows it.
    pub open spec fn window_position(&self, selected: usize, height: usize) -> Option<usize> {
        if self.preview_scroll <= selected < self.window_end(height) {
            Some((selected - self.preview_scroll) as usize)
        } else {
            None
        }
    }

    /// The whole preview: every captured line, numbered, with the selected
    /// one marked, and how far below the scroll offset the selected line
    /// stands. Empty while nothing is selected.
    pub fn get_context_for_selected(&self) -> (r: (Vec<String>, Option<usize>))
        ensures
            match self.selected_line() {
                Some(selected) => {
                    &&& texts(r.0@) == self.context_of(selected)
                    &&& r.1 == Some(
                        if selected >= self.preview_scroll {
                            (selected - self.preview_scroll) as usize
                        } else {
                            0usize
                        },
                    )
                },
                None => r.0@.len() == 0 && r.1 is None,
            },
    {
        if self.filtered_indices.len() == 0 || self.selected_index >= self.filtered_indices.len() {
            return (Vec::new(), None);
        }
        let line_index: usize = self.filtered_indices[self.selected_index];
        let mut context: Vec<String> = Vec::new();
        let mut i: usize = 0;
        while i < self.output_lines.len()
            invariant
                i <= self.output_lines@.len(),
                texts(context@) == self.context_of(line_index).take(i as int),
            decreases self.output_lines@.len() - i,
        {
            let ghost before = context@;
            let entry: String = context_line(
                i == line_index,
                i + 1,
                self.output_lines[i].as_str(),
            );
            context.push(entry);
            assert(texts(context@) =~= self.context_of(line_index).take(i + 1)) by {
                assert(texts(context@) =~= texts(before).push(entry@));
            }
            i = i + 1;
        }
        proof {
            assert(self.context_of(line_index).take(i as int) =~= self.context_of(
                line_index,
            ));
        }
        let selected_visible_index: usize = if line_index >= self.preview_scroll {
            line_index - self.preview_scroll
        } else {
            0
        };
        (context, Some(selected_visible_index))
    }

    /// The preview through a window of `height` lines: the captured lines
    /// from the scroll offset on, as many as fit, numbered and with the
    /// selected one marked; and the position of the selected line in the
    /// window, if the window shows it. Empty while nothing is selected.
    pub fn get_visible_context(&self, height: usize) -> (r: (Vec<String>, Option<usize>))
        ensures
            match self.selected_line() {
                Some(selected) => {
                    &&& texts(r.0@) == self.window_of(selected, height)
                    &&& r.1 == self.window_position(selected, height)
                },
                None => r.0@.len() == 0 && r.1 is None,
            },
    {
        if self.filtered_indices.len() == 0 || self.selected_index >= self.filtered_indices.len() {
            return (Vec::new(), None);
        }
        let line_index: usize = self.filtered_indices[self.selected_index];
        let total: usize = self.output_lines.len();
        let start: usize = self.preview_scroll;
        if start > total {
            proof {
                assert(texts(Seq::<String>::empty()) =~= self.window_of(line_index, height));
            }
            return (Vec::new(), None);
        }
        let end: usize = if height <= total - start {
            start + height
        } else {
            total
        };
        assert(end == self.window_end(height));
        let mut visible: Vec<String> = Vec::new();
        let mut i: usize = start;
        while i < end
            invariant
                start <= i <= end <= total,
                total == self.output_lines@.len(),
                texts(visible@) == self.context_of(line_index).subrange(
                    start as int,
                    i as int,
                ),
            decreases end - i,
        {
            let ghost before = visible@;
            let entry: String = context_line(
                i == line_index,
                i + 1,
                self.output_lines[i].as_str(),
            );
            visible.push(entry);
            assert(texts(visible@) =~= self.context_of(line_index).subrange(
                start as int,
                i + 1,
            )) by {
                assert(texts(visible@) =~= texts(before).push(entry@));
            }
            i = i + 1;
        }
        let position: Option<usize> = if line_index >= start && line_index < end {
            Some(line_index - start)
        } else {
            None
        };
        (visible, position)
    }
}

} // verus!
