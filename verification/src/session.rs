//! One interactive session: the query, the shown list and the selection,
//! kept in step with each other, and what each key does to them.
use vstd::prelude::*;
use crate::filter::{
    admitted_count, lemma_query_shows_positive_scores, lemma_shown_count, recompute,
    scored_above_zero, shown,
};
use crate::input::{InputBuffer, InputView};
use crate::matcher::{ranking, texts, MAX_QUERY_CHARS};
use crate::selection::{chosen, first_of, next_of, previous_of, valid_for, Selection};

verus! {

/// The keys that a session tells apart.
pub enum KeyCode {
    Char(char),
    Backspace,
    Left,
    Right,
    Up,
    Down,
    Enter,
    Esc,
    /// Any other key.
    Other,
}

/// Whether a key went down, is held or came up.
pub enum KeyKind {
    Press,
    Repeat,
    Release,
}

/// What the terminal reports.
pub enum Event {
    Key(KeyCode, KeyKind),
    /// Anything that is no key: a resize, the mouse, a paste.
    Other,
}

/// Whether the session takes keys for the query yet.
#[derive(Clone, Copy, PartialEq, Eq, Debug)]
pub enum InputMode {
    Normal,
    Editing,
}

/// How a session stands after an event.
pub enum Status {
    /// The session goes on.
    Running,
    /// Enter was pressed: the session ends with the selected candidate, or
    /// with none where nothing was selected.
    Confirmed(Option<String>),
    /// Escape was pressed: the session ends without a choice.
    Cancelled,
}

/// What a [`Status`] stands for.
pub enum Verdict {
    Running,
    Confirmed(Option<Seq<char>>),
    Cancelled,
}

impl View for Status {
    type V = Verdict;

    open spec fn view(&self) -> Verdict {
        match self {
            Status::Running => Verdict::Running,
            Status::Confirmed(Some(s)) => Verdict::Confirmed(Some(s@)),
            Status::Confirmed(None) => Verdict::Confirmed(None),
            Status::Cancelled => Verdict::Cancelled,
        }
    }
}

/// What a [`Session`] stands for.
pub struct SessionView {
    pub mode: InputMode,
    pub query: InputView,
    /// The candidates, as they were read.
    pub candidates: Seq<Seq<char>>,
    /// The shown candidates, in the order of the ranking.
    pub items: Seq<Seq<char>>,
    /// The highlighted row of `items`.
    pub selected: Option<nat>,
}

impl SessionView {
    /// What is shown for a query text over these candidates.
    pub open spec fn filtered(self, text: Seq<char>) -> Seq<Seq<char>> {
        shown(text, ranking(text, self.candidates))
    }

    /// The parts of a session agree: the cursor is inside the query, the
    /// query is no longer than the matcher takes, the shown list is the one
    /// that belongs to the query, it holds nothing but candidates (all of
    /// them for the empty query), and the selection names one of its rows, or
    /// none where it has no row.
    pub open spec fn wf(self) -> bool {
        &&& self.query.wf()
        &&& self.query.text.len() <= MAX_QUERY_CHARS
        &&& self.items == self.filtered(self.query.text)
        &&& self.items.len() <= self.candidates.len()
        &&& forall|t: Seq<char>| self.items.contains(t) ==> self.candidates.contains(t)
        &&& self.query.text.len() == 0 ==> self.items.to_multiset()
            == self.candidates.to_multiset()
        &&& valid_for(self.selected, self.items.len())
    }

    /// The session with a new query: the list is computed anew and its first
    /// row selected.
    pub open spec fn requeried(self, query: InputView) -> SessionView {
        let items = self.filtered(query.text);
        SessionView {
            mode: self.mode,
            query,
            candidates: self.candidates,
            items,
            selected: first_of(items.len()),
        }
    }

    /// The session with its list computed anew for the query as it stands.
    /// Nothing else changes: the selection stays where it was.
    pub open spec fn refiltered(self) -> SessionView {
        SessionView {
            mode: self.mode,
            query: self.query,
            candidates: self.candidates,
            items: self.filtered(self.query.text),
            selected: self.selected,
        }
    }

    /// The query after `c` is typed: with `c` at the cursor, or as it was
    /// where it already holds as many characters as the matcher takes.
    pub open spec fn typed_into(self, c: char) -> InputView {
        if self.query.text.len() < MAX_QUERY_CHARS {
            self.query.inserted(c)
        } else {
            self.query
        }
    }

    /// The session with the cursor of its query elsewhere.
    pub open spec fn with_query(self, query: InputView) -> SessionView {
        SessionView {
            mode: self.mode,
            query,
            candidates: self.candidates,
            items: self.items,
            selected: self.selected,
        }
    }

    /// The session with another row selected.
    pub open spec fn with_selected(self, selected: Option<nat>) -> SessionView {
        SessionView {
            mode: self.mode,
            query: self.query,
            candidates: self.candidates,
            items: self.items,
            selected,
        }
    }

    /// The session as it waits for an event: it takes keys for the query.
    pub open spec fn editing(self) -> SessionView {
        SessionView {
            mode: InputMode::Editing,
            query: self.query,
            candidates: self.candidates,
            items: self.items,
            selected: self.selected,
        }
    }

    /// The session after a key was pressed.
    pub open spec fn pressed(self, code: KeyCode) -> SessionView {
        match code {
            KeyCode::Char(c) => self.requeried(self.typed_into(c)),
            KeyCode::Backspace => self.requeried(self.query.deleted()),
            KeyCode::Left => self.with_query(self.query.moved_left()),
            KeyCode::Right => self.with_query(self.query.moved_right()),
            KeyCode::Up => self.with_selected(previous_of(self.selected)),
            KeyCode::Down => self.with_selected(next_of(self.selected, self.items.len())),
            KeyCode::Enter => self,
            KeyCode::Esc => self,
            KeyCode::Other => self,
        }
    }

    /// The session after an event. Only a key that went down does anything.
    pub open spec fn after(self, event: Event) -> SessionView {
        match event {
            Event::Key(code, KeyKind::Press) => self.editing().pressed(code),
            _ => self.editing(),
        }
    }

    /// How the session stands after an event: Enter ends it with the selected
    /// candidate, Escape ends it without one, and after anything else it goes
    /// on.
    pub open spec fn verdict(self, event: Event) -> Verdict {
        match event {
            Event::Key(KeyCode::Enter, KeyKind::Press) => Verdict::Confirmed(
                chosen(self.selected, self.items),
            ),
            Event::Key(KeyCode::Esc, KeyKind::Press) => Verdict::Cancelled,
            _ => Verdict::Running,
        }
    }
}

/// After every typed character and every backspace the shown list is the
/// one that belongs to the query as it then stands, and its first row is
/// selected, or none where it is empty, whatever was selected before.
pub proof fn lemma_edit_selects_first(s: SessionView, code: KeyCode)
    requires
        code is Backspace || code is Char,
    ensures
        ({
            let next = s.after(Event::Key(code, KeyKind::Press));
            &&& next.items == next.filtered(next.query.text)
            &&& next.items.len() > 0 ==> next.selected == Some(0nat)
            &&& next.items.len() == 0 ==> next.selected is None
        }),
{
}

/// Keys that move the cursor or the selection leave the query text and the
/// shown list as they are, and no event changes the candidates.
pub proof fn lemma_moves_keep_list(s: SessionView, event: Event)
    ensures
        s.after(event).candidates == s.candidates,
        !(event matches Event::Key(code, KeyKind::Press) && (code is Char || code is Backspace))
            ==> s.after(event).items == s.items && s.after(event).query.text == s.query.text,
{
}

/// In a session whose parts agree the selection is valid for the shown list
/// after every event, and the cursor stays inside the query.
pub proof fn lemma_event_keeps_selection_valid(s: SessionView, event: Event)
    requires
        s.wf(),
    ensures
        valid_for(s.after(event).selected, s.after(event).items.len()),
        s.after(event).query.wf(),
        s.after(event).query.text.len() <= MAX_QUERY_CHARS,
        s.after(event).items == s.after(event).filtered(s.after(event).query.text),
{
}

/// Without candidates nothing is shown, whatever the query, and Enter
/// confirms nothing.
pub proof fn lemma_no_candidates_no_choice(s: SessionView)
    requires
        s.wf(),
        s.candidates.len() == 0,
    ensures
        s.items.len() == 0,
        s.selected is None,
        s.verdict(Event::Key(KeyCode::Enter, KeyKind::Press)) == Verdict::Confirmed(None),
{
}

/// In every session whose parts agree and whose query is not empty, a
/// candidate is shown exactly if the ranking for that query scores it above
/// zero, and as often as the ranking holds it so.
pub proof fn lemma_session_shows_positive_scores(s: SessionView, t: Seq<char>)
    requires
        s.wf(),
        s.query.text.len() > 0,
    ensures
        s.items.contains(t) <==> scored_above_zero(ranking(s.query.text, s.candidates), t),
        s.items.to_multiset().count(t) == admitted_count(
            s.query.text,
            ranking(s.query.text, s.candidates),
            t,
        ),
{
    lemma_query_shows_positive_scores(s.query.text, ranking(s.query.text, s.candidates), t);
    lemma_shown_count(s.query.text, ranking(s.query.text, s.candidates), t);
}

/// Escape ends the session without a choice, whatever its state.
pub proof fn lemma_escape_cancels(s: SessionView)
    ensures
        s.verdict(Event::Key(KeyCode::Esc, KeyKind::Press)) == Verdict::Cancelled,
{
}

/// The state of one session.
pub struct Session {
    input: InputBuffer,
    input_mode: InputMode,
    entries: Vec<String>,
    items: Vec<String>,
    list_items: Selection,
}

impl View for Session {
    type V = SessionView;

    closed spec fn view(&self) -> SessionView {
        SessionView {
            mode: self.input_mode,
            query: self.input@,
            candidates: texts(self.entries@),
            items: texts(self.items@),
            selected: self.list_items@,
        }
    }
}

impl Session {
    /// The parts of the session agree with each other.
    pub open spec fn wf(&self) -> bool {
        self@.wf()
    }

    /// A session over `entries`, before its first event: the query is empty,
    /// every candidate is shown and the first of them is selected.
    pub fn new(entries: Vec<String>) -> (s: Session)
        ensures
            s.wf(),
            s@.mode == InputMode::Normal,
            s@.query.text.len() == 0,
            s@.query.cursor == 0,
            s@.candidates == texts(entries@),
            s@.items.to_multiset() == texts(entries@).to_multiset(),
            s@.items.len() == entries@.len(),
            s@.selected == first_of(entries@.len() as nat),
    {
        let input: InputBuffer = InputBuffer::new();
        let text: String = input.text();
        let items: Vec<String> = recompute(text.as_str(), &entries);
        let mut list_items: Selection = Selection::new();
        list_items.select_first(items.len());
        proof {
            vstd::seq_lib::to_multiset_len(texts(items@));
            vstd::seq_lib::to_multiset_len(texts(entries@));
        }
        Session { input, input_mode: InputMode::Normal, entries, items, list_items }
    }

    /// Enters the loop of the session: from here on it takes keys for the
    /// query, and every frame shows the help line and the cursor. Nothing
    /// else changes.
    pub fn enter(&mut self)
        ensures
            final(self)@ == old(self)@.editing(),
            final(self)@.mode == InputMode::Editing,
            old(self).wf() ==> final(self).wf(),
    {
        self.input_mode = InputMode::Editing;
    }

    /// Computes the shown list anew for the query as it stands, and leaves
    /// the query, the candidates and the selection alone. In a session whose
    /// parts agree the list that comes out is the one that was there: the
    /// ranking depends on the query and the candidates alone.
    pub fn refresh(&mut self)
        requires
            old(self)@.query.text.len() <= MAX_QUERY_CHARS,
        ensures
            final(self)@ == old(self)@.refiltered(),
            old(self).wf() ==> final(self)@ == old(self)@ && final(self).wf(),
    {
        let text: String = self.input.text();
        self.items = recompute(text.as_str(), &self.entries);
    }

    /// Takes one event and says whether the session goes on.
    ///
    /// A character is typed into the query and backspace deletes from it;
    /// after either the list is computed anew and its first row selected.
    /// Left and Right move the cursor, Up and Down the selection. Enter ends
    /// the session with the selected candidate and Escape without one. A
    /// query of [`MAX_QUERY_CHARS`] characters takes no further character:
    /// the list is still computed anew and its first row selected.
    pub fn handle(&mut self, event: Event) -> (status: Status)
        requires
            old(self).wf(),
        ensures
            final(self)@ == old(self)@.after(event),
            status@ == old(self)@.verdict(event),
            final(self).wf(),
    {
        self.input_mode = InputMode::Editing;
        match event {
            Event::Key(code, KeyKind::Press) => match code {
                KeyCode::Enter => Status::Confirmed(self.selected_item()),
                KeyCode::Char(to_insert) => {
                    if self.input.len() < MAX_QUERY_CHARS {
                        self.input.enter_char(to_insert);
                    }
                    self.query();
                    Status::Running
                },
                KeyCode::Backspace => {
                    self.input.delete_char();
                    self.query();
                    Status::Running
                },
                KeyCode::Left => {
                    self.input.move_cursor_left();
                    Status::Running
                },
                KeyCode::Right => {
                    self.input.move_cursor_right();
                    Status::Running
                },
                KeyCode::Up => {
                    self.list_items.select_previous();
                    Status::Running
                },
                KeyCode::Down => {
                    self.list_items.select_next(self.items.len());
                    Status::Running
                },
                KeyCode::Esc => Status::Cancelled,
                KeyCode::Other => Status::Running,
            },
            _ => Status::Running,
        }
    }

    /// Computes the shown list for a query that was just edited and selects
    /// its first row.
    fn query(&mut self)
        requires
            old(self)@.query.wf(),
            old(self)@.query.text.len() <= MAX_QUERY_CHARS,
        ensures
            final(self)@ == old(self)@.requeried(old(self)@.query),
            final(self).wf(),
    {
        let text: String = self.input.text();
        self.items = recompute(text.as_str(), &self.entries);
        self.list_items.select_first(self.items.len());
    }

    /// The candidate that Enter would confirm: the selected row of the shown
    /// list, or none where the list is empty.
    pub fn selected_item(&self) -> (choice: Option<String>)
        ensures
            choice matches Some(s) ==> chosen(self@.selected, self@.items) == Some(s@),
            choice is None ==> chosen(self@.selected, self@.items) is None,
    {
        self.list_items.confirm(&self.items)
    }

    /// The query and its cursor.
    pub fn input(&self) -> (input: &InputBuffer)
        ensures
            input@ == self@.query,
    {
        &self.input
    }

    /// Whether the session takes keys yet.
    pub fn input_mode(&self) -> (mode: InputMode)
        ensures
            mode == self@.mode,
    {
        self.input_mode
    }

    /// The candidates the session was made with.
    pub fn entries(&self) -> (entries: &Vec<String>)
        ensures
            texts(entries@) == self@.candidates,
    {
        &self.entries
    }

    /// The shown candidates, in the order of the ranking.
    pub fn items(&self) -> (items: &Vec<String>)
        ensures
            texts(items@) == self@.items,
    {
        &self.items
    }

    /// The highlighted row of the shown list.
    pub fn selected(&self) -> (index: Option<usize>)
        ensures
            index matches Some(i) ==> self@.selected == Some(i as nat),
            index is None ==> self@.selected is None,
    {
        self.list_items.selected()
    }
}

} // verus!
