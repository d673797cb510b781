//! What holds of every session: the laws of the view, the selection and the
//! preview, each proved from the contracts of the session's operations.

use vstd::prelude::*;
use crate::app::entries_of;
use crate::app::App;
use crate::app::AppEvent;
use crate::app::LEAD;
use crate::filter::identity;
use crate::filter::lemma_empty_query_shows_all;
use crate::filter::lemma_invalid_query_shows_all;
use crate::filter::lemma_kept_indices_exact;
use crate::filter::lemma_matching_indices_exact;
use crate::filter::lemma_matching_indices_push;
use crate::filter::line_passes;
use crate::filter::matching_indices;
use crate::filter::verdicts;
use crate::matcher::compiled;

verus! {

impl App {
    /// The session after the selection moved down `times` times.
    pub open spec fn after_nexts(self, times: nat) -> App
        decreases times,
    {
        if times == 0 {
            self
        } else {
            self.after_nexts((times - 1) as nat).after_next()
        }
    }

    /// Under an empty query a consistent view shows every captured line, in
    /// arrival order: its indices are `0, 1, ..., n - 1`.
    pub proof fn lemma_empty_query_view(&self)
        requires
            self.view_ok(),
            self.search_query@.len() == 0,
        ensures
            self.shown() == identity(self.output_lines@.len()),
    {
        lemma_empty_query_shows_all(self.lines());
        assert(self.search_query@ =~= Seq::<char>::empty());
    }

    /// A consistent view is strictly ascending and holds exactly the indices
    /// of the captured lines that the query lets through.
    pub proof fn lemma_view_exact(&self)
        requires
            self.view_ok(),
        ensures
            forall|j: int, k: int|
                0 <= j < k < self.shown().len() ==> #[trigger] self.shown()[j]
                    < #[trigger] self.shown()[k],
            forall|i: int|
                self.shown().contains(i) <==> (0 <= i < self.output_lines@.len() && line_passes(
                    self.search_query@,
                    self.lines()[i],
                )),
    {
        lemma_matching_indices_exact(self.search_query@, self.lines());
    }

    /// Under a query that does not compile a consistent view is the one of
    /// the empty query: every captured line, in arrival order.
    pub proof fn lemma_invalid_query_view(&self)
        requires
            self.view_ok(),
            compiled(self.search_query@) is Err,
        ensures
            self.shown() == matching_indices(Seq::<char>::empty(), self.lines()),
            self.shown() == identity(self.output_lines@.len()),
    {
        lemma_invalid_query_shows_all(self.search_query@, self.lines());
    }

    /// Capturing a line keeps a consistent view consistent: the view still
    /// shows exactly what the query lets through, and the selection and the
    /// preview still fit it.
    pub proof fn lemma_append_keeps_view(before: App, after: App, line: String)
        requires
            before.view_ok(),
            after.is_append_of(&before, line, line_passes(before.search_query@, line@)),
        ensures
            after.view_ok(),
    {
        let n = before.output_lines@.len() as int;
        let keep = line_passes(before.search_query@, line@);
        before.lemma_view_lengths();
        lemma_matching_indices_push(before.search_query@, before.lines(), line@);
        lemma_kept_indices_exact(verdicts(before.search_query@, before.lines()));
        assert(after.lines() =~= before.lines().push(line@));
        assert(before.output_lines.len() == n);
        assert(after.output_lines.len() == n + 1);
        if keep {
            assert(after.shown() =~= before.shown().push(n));
        } else {
            assert(after.shown() =~= before.shown());
            assert(after.entries() =~= before.entries());
        }
        assert(after.entries() =~= entries_of(after.shown(), after.lines())) by {
            assert forall|k: int| 0 <= k < after.shown().len() implies after.entries()[k]
                == entries_of(after.shown(), after.lines())[k] by {
                if k < before.shown().len() {
                    assert(after.shown()[k] == before.shown()[k]);
                    assert(0 <= before.shown()[k] < n);
                    assert(after.entries()[k] == before.entries()[k]);
                    assert(before.entries()[k] == entries_of(before.shown(), before.lines())[k]);
                }
            }
        }
    }

    /// `states` are the states of a session while it captures `lines` one
    /// after the other: the first state is the one before the first line, and
    /// each further state is the one before it with the next line captured.
    pub open spec fn is_capture_run(states: Seq<App>, lines: Seq<String>) -> bool
        decreases lines.len(),
    {
        if lines.len() == 0 {
            states.len() == 1
        } else {
            let before = states[states.len() - 2];
            &&& states.len() == lines.len() + 1
            &&& App::is_capture_run(states.drop_last(), lines.drop_last())
            &&& states.last().is_append_of(
                &before,
                lines.last(),
                line_passes(before.search_query@, lines.last()@),
            )
        }
    }

    /// Whatever lines a session captures, it keeps its query, holds the
    /// lines in arrival order behind those it had, and a view that was
    /// consistent at the start is consistent at the end.
    pub proof fn lemma_capture_run(states: Seq<App>, lines: Seq<String>)
        requires
            App::is_capture_run(states, lines),
            states[0].view_ok(),
        ensures
            states.last().view_ok(),
            states.last().search_query == states[0].search_query,
            states.last().output_lines@ == states[0].output_lines@ + lines,
        decreases lines.len(),
    {
        if lines.len() > 0 {
            let front = states.drop_last();
            App::lemma_capture_run(front, lines.drop_last());
            let before = states[states.len() - 2];
            assert(front.last() == before);
            assert(front[0] == states[0]);
            App::lemma_append_keeps_view(before, states.last(), lines.last());
            assert(states.last().output_lines@ =~= states[0].output_lines@ + lines) by {
                assert(lines.drop_last().push(lines.last()) =~= lines);
            }
        } else {
            assert(states.last().output_lines@ =~= states[0].output_lines@ + lines);
        }
    }

    /// With an empty query, whatever lines a session captures from its
    /// start, the view is `0, 1, ..., n - 1`: every line, in arrival order.
    pub proof fn lemma_empty_query_capture(
        states: Seq<App>,
        lines: Seq<String>,
        command: Seq<char>,
        args: Seq<Seq<char>>,
    )
        requires
            App::is_capture_run(states, lines),
            states[0].is_fresh(command, args),
        ensures
            states.last().shown() == identity(lines.len()),
            states.last().output_lines@ == lines,
    {
        states[0].lemma_fresh_inv(command, args);
        App::lemma_capture_run(states, lines);
        states.last().lemma_empty_query_view();
        assert(states[0].output_lines@ + lines =~= lines);
    }

    /// Applying the same query twice changes nothing the second time: both
    /// searches leave the same view and the same entries, select the first
    /// entry, and put the preview in the same place.
    pub proof fn lemma_search_idempotent(start: App, once: App, twice: App)
        requires
            once.is_search_of(&start),
            twice.is_search_of(&once),
            twice.search_query@ == once.search_query@,
        ensures
            twice.shown() == once.shown(),
            twice.filtered_indices@ == once.filtered_indices@,
            twice.entries() == once.entries(),
            once.selected_index == 0,
            twice.selected_index == 0,
            twice.preview_scroll == once.preview_scroll,
    {
        let n = start.output_lines@.len();
        assert(once.lines() =~= start.lines());
        assert(twice.lines() =~= start.lines());
        assert(twice.shown() == once.shown());
        assert(twice.filtered_indices@ =~= once.filtered_indices@) by {
            assert(twice.shown().len() == once.shown().len());
            assert forall|k: int| 0 <= k < once.filtered_indices@.len() implies
                twice.filtered_indices@[k] == once.filtered_indices@[k] by {
                assert(twice.shown()[k] == once.shown()[k]);
            }
        }
    }

    /// In a session that satisfies the invariant, with `n` entries in the
    /// view, moving the selection down `times` times puts it `times` places
    /// further, counted round the view.
    pub proof fn lemma_after_nexts(self, times: nat)
        requires
            self.inv(),
            self.shown().len() > 0,
        ensures
            self.after_nexts(times) == (App {
                selected_index: ((self.selected_index + times) % (
                self.shown().len() as int)) as usize,
                ..self
            }).scrolled(),
            self.after_nexts(times).inv(),
        decreases times,
    {
        let n = self.shown().len() as int;
        self.lemma_view_lengths();
        if times == 0 {
            assert((self.selected_index + 0) % n == self.selected_index as int) by (nonlinear_arith)
                requires
                    0 <= self.selected_index < n,
            ;
        } else {
            let k = (times - 1) as nat;
            self.lemma_after_nexts(k);
            let mid = self.after_nexts(k);
            let at = (self.selected_index + k) % n;
            assert(0 <= at < n) by (nonlinear_arith)
                requires
                    at == (self.selected_index + k) % n,
                    n > 0,
            ;
            assert((at + 1) % n == (self.selected_index + times) % n) by (nonlinear_arith)
                requires
                    at == (self.selected_index + k) % n,
                    times == k + 1,
                    n > 0,
            ;
            assert(0 <= (at + 1) % n < n) by (nonlinear_arith)
                requires
                    n > 0,
            ;
        }
    }

    /// In a view of `n` entries, `n` moves down bring the selection, and
    /// with it the whole session, back to where it was.
    pub proof fn lemma_next_cycles(self)
        requires
            self.inv(),
            self.shown().len() > 0,
        ensures
            self.after_nexts(self.shown().len()) == self,
            self.after_nexts(self.shown().len()).selected_index == self.selected_index,
    {
        let n = self.shown().len();
        self.lemma_after_nexts(n);
        assert((self.selected_index + n) % (n as int) == self.selected_index as int)
            by (nonlinear_arith)
            requires
                0 <= self.selected_index < n,
        ;
    }

    /// Moving up from the first entry selects the last one.
    pub proof fn lemma_prev_from_first(self)
        requires
            self.inv(),
            self.shown().len() > 0,
            self.selected_index == 0,
        ensures
            self.after_prev().selected_index == self.shown().len() - 1,
            self.after_prev().inv(),
    {
        self.lemma_view_lengths();
    }

    /// Moving down and then up again leaves the session as it was.
    pub proof fn lemma_prev_undoes_next(self)
        requires
            self.inv(),
            self.shown().len() > 0,
        ensures
            self.after_next().after_prev() == self,
    {
        let n = self.shown().len() as int;
        self.lemma_view_lengths();
        assert((self.selected_index + 1) % n == if self.selected_index + 1 == n {
            0
        } else {
            self.selected_index + 1
        }) by (nonlinear_arith)
            requires
                0 <= self.selected_index < n,
        ;
    }

    /// The scroll rule: in a consistent view with a selected entry, the
    /// preview starts `LEAD` lines above the selected line, or at the first
    /// line where the selected line is less than `LEAD` lines down.
    pub proof fn lemma_scroll_rule(&self)
        requires
            self.view_ok(),
            self.shown().len() > 0,
        ensures
            self.selected_line() is Some,
            self.selected_line()->Some_0 >= LEAD ==> self.preview_scroll
                == self.selected_line()->Some_0 - LEAD,
            self.selected_line()->Some_0 < LEAD ==> self.preview_scroll == 0,
            self.preview_scroll <= self.selected_line()->Some_0 < self.output_lines@.len(),
    {
        self.lemma_view_lengths();
        lemma_kept_indices_exact(verdicts(self.search_query@, self.lines()));
        assert(self.shown()[self.selected_index as int]
            == self.filtered_indices@[self.selected_index as int]);
    }

    /// The end of the command does not close the capture: a line that
    /// arrives after the exit code is appended like any other, and the exit
    /// code stays.
    pub proof fn lemma_output_after_exit(before: App, exited: App, after: App, code: i32, line: String)
        requires
            exited == before.after_exit(code),
            after.is_event_of(&exited, AppEvent::Output(line)),
        ensures
            exited.exit_code == Some(code),
            !exited.running,
            after.exit_code == Some(code),
            !after.running,
            after.output_lines@ == before.output_lines@.push(line),
            after.lines() == before.lines().push(line@),
    {
        assert(after.lines() =~= before.lines().push(line@));
    }
}

} // verus!
