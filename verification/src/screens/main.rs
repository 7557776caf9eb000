//! The main screen: a query field and the table of the last result.
use vstd::prelude::*;

use crate::data::AppCommand;
use crate::events::{KeyCode, TermEvent};
use crate::text::{join_strings, join_with, string_views};
use crate::textarea::{edited_lines, new_text_field, text_field_from, text_field_input, text_field_lines, text_lines, TextField};

verus! {

/// What the main screen is doing: taking a query.
#[derive(Debug, Clone, Copy, PartialEq, Eq, Structural)]
pub enum MainScreenState {
    Query,
}

/// The main screen: the result field, the query field and what it is doing.
#[derive(Debug)]
pub struct MainScreen {
    output: TextField,
    input: TextField,
    state: MainScreenState,
}

/// The lines of the result field for a result: the headers, one per line,
/// then each row with its cells on lines of their own.
pub open spec fn result_lines(headers: Seq<Seq<char>>, rows: Seq<Seq<Seq<char>>>) -> Seq<Seq<char>> {
    headers + rows.map_values(|row: Seq<Seq<char>>| join_with(row, "\n"@))
}

/// The result lines are the headers, one per line, followed by exactly one
/// line per row, in order, each row's cells joined by line breaks.
pub proof fn lemma_result_lines_shape(headers: Seq<Seq<char>>, rows: Seq<Seq<Seq<char>>>)
    ensures
        result_lines(headers, rows).len() == headers.len() + rows.len(),
        forall|i: int| 0 <= i < headers.len() ==> #[trigger] result_lines(headers, rows)[i] == headers[i],
        forall|i: int|
            0 <= i < rows.len() ==> #[trigger] result_lines(headers, rows)[headers.len() + i] == join_with(
                rows[i],
                "\n"@,
            ),
{
}

/// The lines a text field shows for `lines`: a single empty line when there
/// are none.
pub open spec fn shown_lines(lines: Seq<Seq<char>>) -> Seq<Seq<char>> {
    if lines.len() == 0 {
        seq![Seq::<char>::empty()]
    } else {
        lines
    }
}

/// The query held by a query field: its lines joined by line breaks.
pub open spec fn query_text(field: TextField) -> Seq<char> {
    join_with(text_lines(field), "\n"@)
}

/// Whether handling `event` on the screen `before` leads to the screen
/// `after` and the command `command`: Enter asks for the query field's text
/// to be run and changes nothing; any other event goes to the query field,
/// whose lines become `edited_lines` of it, and changes nothing else.
pub open spec fn main_step(
    before: MainScreen,
    after: MainScreen,
    event: TermEvent,
    command: Option<AppCommand>,
) -> bool {
    &&& after.results() == before.results()
    &&& after.mode() == before.mode()
    &&& if event.has_code(KeyCode::Enter) {
        &&& command matches Some(AppCommand::Query(q)) && q@ == query_text(before.query())
        &&& after.query() == before.query()
    } else {
        &&& command is None
        &&& text_lines(after.query()) == edited_lines(
            before.query(),
            event.input.key,
            event.input.ctrl,
            event.input.alt,
            event.input.shift,
        )
        &&& text_lines(after.query()).len() > 0
    }
}

impl MainScreen {
    /// The result field.
    pub closed spec fn results(&self) -> TextField {
        self.output
    }

    /// The query field.
    pub closed spec fn query(&self) -> TextField {
        self.input
    }

    /// What the screen is doing.
    pub closed spec fn mode(&self) -> MainScreenState {
        self.state
    }

    /// An empty result field and an empty query field.
    pub fn new() -> (screen: Self)
        ensures
            text_lines(screen.results()) == seq![Seq::<char>::empty()],
            text_lines(screen.query()) == seq![Seq::<char>::empty()],
            screen.mode() == MainScreenState::Query,
    {
        MainScreen { output: new_text_field(), input: new_text_field(), state: MainScreenState::Query }
    }

    /// Shows a result: the headers, one per line, then each row with its
    /// cells joined by line breaks.
    pub fn set_output(&mut self, headers: Vec<String>, rows: Vec<Vec<String>>)
        ensures
            text_lines(final(self).results()) == shown_lines(
                result_lines(
                    string_views(headers@),
                    rows@.map_values(|row: Vec<String>| string_views(row@)),
                ),
            ),
            final(self).query() == old(self).query(),
            final(self).mode() == old(self).mode(),
    {
        let ghost row_views = rows@.map_values(|row: Vec<String>| string_views(row@));
        let mut all_rows = headers;
        let ghost head = string_views(all_rows@);
        let n = rows.len();
        let mut i: usize = 0;
        while i < n
            invariant
                n == rows@.len(),
                i <= n,
                row_views == rows@.map_values(|row: Vec<String>| string_views(row@)),
                string_views(all_rows@) =~= head + row_views.take(i as int).map_values(
                    |row: Seq<Seq<char>>| join_with(row, "\n"@),
                ),
            decreases n - i,
        {
            let ghost before = all_rows@;
            let line = join_strings(&rows[i], "\n");
            all_rows.push(line);
            proof {
                assert(row_views[i as int] == string_views(rows@[i as int]@));
                assert(row_views.take(i + 1) =~= row_views.take(i as int).push(row_views[i as int]));
                assert(string_views(all_rows@) =~= string_views(before).push(line@));
                assert(row_views.take(i + 1).map_values(|row: Seq<Seq<char>>| join_with(row, "\n"@))
                    =~= row_views.take(i as int).map_values(|row: Seq<Seq<char>>| join_with(row, "\n"@)).push(
                    join_with(row_views[i as int], "\n"@),
                ));
            }
            i = i + 1;
        }
        proof {
            assert(row_views.take(n as int) =~= row_views);
        }
        self.output = text_field_from(all_rows);
    }

    /// Handles an event: Enter asks for the query field's text to be run;
    /// any other event goes to the query field.
    pub fn handle_event(&mut self, event: &TermEvent) -> (command: Option<AppCommand>)
        ensures
            main_step(*old(self), *final(self), *event, command),
    {
        match event.key {
            Some(key_event) => {
                if key_event.code == KeyCode::Enter {
                    let lines = text_field_lines(&self.input);
                    let query = join_strings(&lines, "\n");
                    return Some(AppCommand::Query(query));
                }
            },
            None => {},
        }
        text_field_input(&mut self.input, &event.input);
        None
    }

    /// The title of the box at the top of the screen.
    pub fn header_title() -> (title: &'static str)
        ensures
            title@ == "Header"@,
    {
        "Header"
    }

    /// The title of the result field.
    pub fn results_title() -> (title: &'static str)
        ensures
            title@ == "Results"@,
    {
        "Results"
    }

    /// The title of the query field.
    pub fn query_title() -> (title: &'static str)
        ensures
            title@ == "Query"@,
    {
        "Query"
    }

    /// The result field.
    pub fn output(&self) -> (f: &TextField)
        ensures
            *f == self.results(),
    {
        &self.output
    }

    /// The query field.
    pub fn input(&self) -> (f: &TextField)
        ensures
            *f == self.query(),
    {
        &self.input
    }
}

} // verus!
