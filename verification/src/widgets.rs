use vstd::prelude::*;
use crate::keys::Key;
use crate::text::{copy_strings, string_from_chars};

verus! {

// ---------------------------------------------------------------------------------------
// Line editor
// ---------------------------------------------------------------------------------------

/// A one-line text field with a cursor, a focus flag and an error message.
#[derive(Debug)]
pub struct LineEditor {
    title: String,
    text: Vec<char>,
    cursor: usize,
    focused: bool,
    secret: bool,
    error: Option<String>,
}

/// What a `LineEditor` is: its title, text, cursor position, focus, whether it hides
/// what is typed, and the error it shows.
pub struct LineEditorView {
    pub title: Seq<char>,
    pub text: Seq<char>,
    pub cursor: nat,
    pub focused: bool,
    pub secret: bool,
    pub error: Option<Seq<char>>,
}

impl View for LineEditor {
    type V = LineEditorView;

    closed spec fn view(&self) -> LineEditorView {
        LineEditorView {
            title: self.title@,
            text: self.text@,
            cursor: self.cursor as nat,
            focused: self.focused,
            secret: self.secret,
            error: match &self.error {
                Some(e) => Some(e@),
                None => None,
            },
        }
    }
}

/// The field with focus set to `focused`.
pub open spec fn editor_focus(e: LineEditorView, focused: bool) -> LineEditorView {
    LineEditorView { focused, ..e }
}

/// The field emptied: no text, cursor at the start (an error it shows stays).
pub open spec fn editor_cleared(e: LineEditorView) -> LineEditorView {
    LineEditorView { text: Seq::empty(), cursor: 0, ..e }
}

/// The field showing the error `msg`.
pub open spec fn editor_with_error(e: LineEditorView, msg: Seq<char>) -> LineEditorView {
    LineEditorView { error: Some(msg), ..e }
}

/// The field after it handles key `k` itself: a character goes in at the cursor,
/// Backspace and Delete take out the character before or at the cursor, Left, Right,
/// Home and End move the cursor; an edit clears the error; other keys change nothing.
pub open spec fn editor_after_key(e: LineEditorView, k: Key) -> LineEditorView {
    match k {
        Key::Char(c) => LineEditorView {
            text: e.text.insert(e.cursor as int, c),
            cursor: e.cursor + 1,
            error: None,
            ..e
        },
        Key::Backspace => if e.cursor > 0 {
            LineEditorView {
                text: e.text.remove(e.cursor - 1),
                cursor: (e.cursor - 1) as nat,
                error: None,
                ..e
            }
        } else {
            e
        },
        Key::Delete => if e.cursor < e.text.len() {
            LineEditorView { text: e.text.remove(e.cursor as int), error: None, ..e }
        } else {
            e
        },
        Key::Left => if e.cursor > 0 {
            LineEditorView { cursor: (e.cursor - 1) as nat, ..e }
        } else {
            e
        },
        Key::Right => if e.cursor < e.text.len() {
            LineEditorView { cursor: e.cursor + 1, ..e }
        } else {
            e
        },
        Key::Home => LineEditorView { cursor: 0, ..e },
        Key::End => LineEditorView { cursor: e.text.len(), ..e },
        _ => e,
    }
}

/// Typing a character and then Backspace leaves the text and the cursor as they were.
pub proof fn lemma_type_then_backspace(e: LineEditorView, c: char)
    requires
        e.cursor <= e.text.len(),
    ensures
        editor_after_key(editor_after_key(e, Key::Char(c)), Key::Backspace).text == e.text,
        editor_after_key(editor_after_key(e, Key::Char(c)), Key::Backspace).cursor == e.cursor,
{
    let typed = editor_after_key(e, Key::Char(c));
    assert(typed.text.remove(e.cursor as int) =~= e.text);
}

/// Every key keeps the cursor within the text.
pub proof fn lemma_editor_cursor_in_text(e: LineEditorView, k: Key)
    requires
        e.cursor <= e.text.len(),
    ensures
        editor_after_key(e, k).cursor <= editor_after_key(e, k).text.len(),
{
}

impl LineEditor {
    #[verifier::type_invariant]
    spec fn cursor_in_text(&self) -> bool {
        self.cursor <= self.text.len()
    }

    /// An empty, unfocused field titled `title`.
    pub fn new(title: &str) -> (r: LineEditor)
        ensures
            r@ == (LineEditorView {
                title: title@,
                text: Seq::empty(),
                cursor: 0,
                focused: false,
                secret: false,
                error: None,
            }),
    {
        LineEditor {
            title: String::from_str(title),
            text: Vec::new(),
            cursor: 0,
            focused: false,
            secret: false,
            error: None,
        }
    }

    /// This field, hiding what is typed when `secret` holds.
    pub fn secret(self, secret: bool) -> (r: LineEditor)
        ensures
            r@ == (LineEditorView { secret, ..self@ }),
    {
        proof {
            use_type_invariant(&self);
        }
        LineEditor { secret, ..self }
    }

    /// Whether the field has focus.
    pub fn is_focused(&self) -> (r: bool)
        ensures
            r == self@.focused,
    {
        self.focused
    }

    /// The field's title.
    pub fn title(&self) -> (r: String)
        ensures
            r@ == self@.title,
    {
        self.title.clone()
    }

    /// The cursor position, counted in characters from the start of the text.
    pub fn cursor(&self) -> (r: usize)
        ensures
            r == self@.cursor,
    {
        self.cursor
    }

    /// Whether the field hides what is typed.
    pub fn is_secret(&self) -> (r: bool)
        ensures
            r == self@.secret,
    {
        self.secret
    }

    /// Gives the field focus.
    pub fn focus(&mut self)
        ensures
            final(self)@ == editor_focus(old(self)@, true),
    {
        proof {
            use_type_invariant(&*self);
        }
        self.focused = true;
    }

    /// Takes focus away from the field.
    pub fn unfocus(&mut self)
        ensures
            final(self)@ == editor_focus(old(self)@, false),
    {
        proof {
            use_type_invariant(&*self);
        }
        self.focused = false;
    }

    /// The text typed into the field.
    pub fn value(&self) -> (r: String)
        ensures
            r@ == self@.text,
    {
        string_from_chars(&self.text)
    }

    /// The error the field shows, if any.
    pub fn error_message(&self) -> (r: Option<String>)
        ensures
            match r {
                Some(m) => self@.error == Some(m@),
                None => self@.error is None,
            },
    {
        match &self.error {
            Some(e) => Some(e.clone()),
            None => None,
        }
    }

    /// Whether the field holds no text.
    pub fn is_empty(&self) -> (r: bool)
        ensures
            r == (self@.text.len() == 0),
    {
        self.text.len() == 0
    }

    /// Empties the field.
    pub fn clear(&mut self)
        ensures
            final(self)@ == editor_cleared(old(self)@),
    {
        proof {
            use_type_invariant(&*self);
        }
        self.cursor = 0;
        self.text = Vec::new();
        assert(self.text@ =~= Seq::<char>::empty());
    }

    /// Shows the error `msg` on the field.
    pub fn error(&mut self, msg: &str)
        ensures
            final(self)@ == editor_with_error(old(self)@, msg@),
    {
        proof {
            use_type_invariant(&*self);
        }
        self.error = Some(String::from_str(msg));
    }

    /// Handles a key as text editing (see `editor_after_key`).
    pub fn handle_input(&mut self, k: Key)
        ensures
            final(self)@ == editor_after_key(old(self)@, k),
    {
        proof {
            use_type_invariant(&*self);
        }
        let pos = self.cursor;
        let mut t: Vec<char> = Vec::new();
        self.cursor = 0;
        std::mem::swap(&mut t, &mut self.text);
        let mut new_pos = pos;
        match k {
            Key::Char(c) => {
                t.insert(pos, c);
                let len = t.len();
                assert(pos < len);
                new_pos = pos + 1;
                self.error = None;
            },
            Key::Backspace => {
                if pos > 0 {
                    t.remove(pos - 1);
                    new_pos = pos - 1;
                    self.error = None;
                }
            },
            Key::Delete => {
                if pos < t.len() {
                    t.remove(pos);
                    self.error = None;
                }
            },
            Key::Left => {
                if pos > 0 {
                    new_pos = pos - 1;
                }
            },
            Key::Right => {
                if pos < t.len() {
                    new_pos = pos + 1;
                }
            },
            Key::Home => {
                new_pos = 0;
            },
            Key::End => {
                new_pos = t.len();
            },
            _ => {},
        }
        self.text = t;
        self.cursor = new_pos;
    }
}

// ---------------------------------------------------------------------------------------
// Button menu
// ---------------------------------------------------------------------------------------

/// A vertical menu of buttons with one selected button and a focus flag.
#[derive(Debug)]
pub struct WidgetBox {
    labels: Vec<String>,
    selected: usize,
    focused: bool,
}

/// What a `WidgetBox` is: its button labels, the selected position and its focus.
pub struct WidgetBoxView {
    pub labels: Seq<Seq<char>>,
    pub selected: nat,
    pub focused: bool,
}

impl View for WidgetBox {
    type V = WidgetBoxView;

    closed spec fn view(&self) -> WidgetBoxView {
        WidgetBoxView {
            labels: self.labels.deep_view(),
            selected: self.selected as nat,
            focused: self.focused,
        }
    }
}

/// The menu with focus set to `focused`.
pub open spec fn menu_focus(m: WidgetBoxView, focused: bool) -> WidgetBoxView {
    WidgetBoxView { focused, ..m }
}

/// The menu with `selected` as its selected position.
pub open spec fn menu_select(m: WidgetBoxView, selected: nat) -> WidgetBoxView {
    WidgetBoxView { selected, ..m }
}

/// The last position of the menu (0 when it is empty).
pub open spec fn menu_last(m: WidgetBoxView) -> nat {
    if m.labels.len() > 0 {
        (m.labels.len() - 1) as nat
    } else {
        0
    }
}

/// The menu after moving down, going round to the first button from the last.
pub open spec fn menu_down_wrapping(m: WidgetBoxView) -> WidgetBoxView {
    if m.selected + 1 < m.labels.len() {
        menu_select(m, m.selected + 1)
    } else {
        menu_select(m, 0)
    }
}

/// The menu after moving up, going round to the last button from the first.
pub open spec fn menu_up_wrapping(m: WidgetBoxView) -> WidgetBoxView {
    if m.selected > 0 {
        menu_select(m, (m.selected - 1) as nat)
    } else {
        menu_select(m, menu_last(m))
    }
}

/// The menu with its buttons relabelled, the selected position kept where it still
/// names a button.
pub open spec fn menu_relabelled(m: WidgetBoxView, labels: Seq<Seq<char>>) -> WidgetBoxView {
    WidgetBoxView {
        labels,
        selected: if m.selected < labels.len() {
            m.selected
        } else if labels.len() > 0 {
            (labels.len() - 1) as nat
        } else {
            0
        },
        ..m
    }
}

/// The selected button's position, when the menu has buttons.
pub open spec fn menu_selected(m: WidgetBoxView) -> Option<nat> {
    if m.selected < m.labels.len() {
        Some(m.selected)
    } else {
        None
    }
}

impl WidgetBox {
    #[verifier::type_invariant]
    spec fn selection_in_menu(&self) -> bool {
        if self.labels.len() == 0 {
            self.selected == 0
        } else {
            self.selected < self.labels.len()
        }
    }

    /// An unfocused menu of buttons labelled `labels`, the first one selected.
    pub fn button_menu(labels: Vec<String>) -> (r: WidgetBox)
        ensures
            r@ == (WidgetBoxView { labels: labels.deep_view(), selected: 0, focused: false }),
    {
        WidgetBox { labels, selected: 0, focused: false }
    }

    /// Whether the menu has focus.
    pub fn is_focused(&self) -> (r: bool)
        ensures
            r == self@.focused,
    {
        self.focused
    }

    /// Gives the menu focus.
    pub fn focus(&mut self)
        ensures
            final(self)@ == menu_focus(old(self)@, true),
    {
        proof {
            use_type_invariant(&*self);
        }
        self.focused = true;
    }

    /// Takes focus away from the menu.
    pub fn unfocus(&mut self)
        ensures
            final(self)@ == menu_focus(old(self)@, false),
    {
        proof {
            use_type_invariant(&*self);
        }
        self.focused = false;
    }

    /// Moves the selection down one button; says whether there was one to move to.
    pub fn next_child(&mut self) -> (moved: bool)
        ensures
            moved == (old(self)@.selected + 1 < old(self)@.labels.len()),
            final(self)@ == if moved {
                menu_select(old(self)@, old(self)@.selected + 1)
            } else {
                old(self)@
            },
    {
        proof {
            use_type_invariant(&*self);
        }
        if self.selected + 1 < self.labels.len() {
            self.selected = self.selected + 1;
            true
        } else {
            false
        }
    }

    /// Moves the selection up one button; says whether there was one to move to.
    pub fn prev_child(&mut self) -> (moved: bool)
        ensures
            moved == (old(self)@.selected > 0),
            final(self)@ == if moved {
                menu_select(old(self)@, (old(self)@.selected - 1) as nat)
            } else {
                old(self)@
            },
    {
        proof {
            use_type_invariant(&*self);
        }
        if self.selected > 0 {
            self.selected = self.selected - 1;
            true
        } else {
            false
        }
    }

    /// Selects the first button.
    pub fn first_child(&mut self)
        ensures
            final(self)@ == menu_select(old(self)@, 0),
    {
        proof {
            use_type_invariant(&*self);
        }
        self.selected = 0;
    }

    /// Selects the last button.
    pub fn last_child(&mut self)
        ensures
            final(self)@ == menu_select(old(self)@, menu_last(old(self)@)),
    {
        proof {
            use_type_invariant(&*self);
        }
        if self.labels.len() > 0 {
            self.selected = self.labels.len() - 1;
        } else {
            self.selected = 0;
        }
    }

    /// The selected button's position, when the menu has buttons.
    pub fn selected_child(&self) -> (r: Option<usize>)
        ensures
            match r {
                Some(i) => menu_selected(self@) == Some(i as nat),
                None => menu_selected(self@) is None,
            },
    {
        if self.selected < self.labels.len() {
            Some(self.selected)
        } else {
            None
        }
    }

    /// The labels of the buttons.
    pub fn labels(&self) -> (r: Vec<String>)
        ensures
            r.deep_view() == self@.labels,
    {
        copy_strings(&self.labels)
    }

    /// Replaces the buttons' labels, keeping the selection where it still names a button.
    pub fn set_children_inplace(&mut self, labels: Vec<String>)
        ensures
            final(self)@ == menu_relabelled(old(self)@, labels.deep_view()),
    {
        proof {
            use_type_invariant(&*self);
        }
        if self.selected >= labels.len() {
            if labels.len() > 0 {
                self.selected = labels.len() - 1;
            } else {
                self.selected = 0;
            }
        }
        self.labels = labels;
    }
}

// ---------------------------------------------------------------------------------------
// Table
// ---------------------------------------------------------------------------------------

/// A table of text rows under column headers, with a selected row and a focus flag.
#[derive(Debug)]
pub struct TableWidget {
    title: String,
    headers: Vec<String>,
    rows: Vec<Vec<String>>,
    selected: usize,
    focused: bool,
}

/// What a `TableWidget` is.
pub struct TableWidgetView {
    pub title: Seq<char>,
    pub headers: Seq<Seq<char>>,
    pub rows: Seq<Seq<Seq<char>>>,
    pub selected: nat,
    pub focused: bool,
}

impl View for TableWidget {
    type V = TableWidgetView;

    closed spec fn view(&self) -> TableWidgetView {
        TableWidgetView {
            title: self.title@,
            headers: self.headers.deep_view(),
            rows: self.rows.deep_view(),
            selected: self.selected as nat,
            focused: self.focused,
        }
    }
}

/// The table with focus set to `focused`.
pub open spec fn table_focus(t: TableWidgetView, focused: bool) -> TableWidgetView {
    TableWidgetView { focused, ..t }
}

/// The table with `selected` as its selected row.
pub open spec fn table_select(t: TableWidgetView, selected: nat) -> TableWidgetView {
    TableWidgetView { selected, ..t }
}

/// The last row of the table (0 when it is empty).
pub open spec fn table_last(t: TableWidgetView) -> nat {
    if t.rows.len() > 0 {
        (t.rows.len() - 1) as nat
    } else {
        0
    }
}

/// The selected row, when it is a row of the table.
pub open spec fn table_selected(t: TableWidgetView) -> Option<nat> {
    if t.selected < t.rows.len() {
        Some(t.selected)
    } else {
        None
    }
}

/// The table with its selection brought back onto its last row when it is past it.
pub open spec fn table_fixed(t: TableWidgetView) -> TableWidgetView {
    if t.selected < t.rows.len() {
        t
    } else {
        table_select(t, table_last(t))
    }
}

impl TableWidget {
    /// An unfocused table with the first row selected.
    pub fn new(title: &str, headers: Vec<String>, rows: Vec<Vec<String>>) -> (r: TableWidget)
        ensures
            r@ == (TableWidgetView {
                title: title@,
                headers: headers.deep_view(),
                rows: rows.deep_view(),
                selected: 0,
                focused: false,
            }),
    {
        TableWidget { title: String::from_str(title), headers, rows, selected: 0, focused: false }
    }

    /// Whether the table has focus.
    pub fn is_focused(&self) -> (r: bool)
        ensures
            r == self@.focused,
    {
        self.focused
    }

    /// Gives the table focus.
    pub fn focus(&mut self)
        ensures
            final(self)@ == table_focus(old(self)@, true),
    {
        self.focused = true;
    }

    /// Takes focus away from the table.
    pub fn unfocus(&mut self)
        ensures
            final(self)@ == table_focus(old(self)@, false),
    {
        self.focused = false;
    }

    /// Moves the selection down one row; says whether there was one to move to.
    pub fn next_row(&mut self) -> (moved: bool)
        ensures
            moved == (old(self)@.selected + 1 < old(self)@.rows.len()),
            final(self)@ == if moved {
                table_select(old(self)@, old(self)@.selected + 1)
            } else {
                old(self)@
            },
    {
        if self.selected < self.rows.len() && self.selected + 1 < self.rows.len() {
            self.selected = self.selected + 1;
            true
        } else {
            false
        }
    }

    /// Moves the selection up one row; says whether there was one to move to.
    pub fn previous_row(&mut self) -> (moved: bool)
        ensures
            moved == (old(self)@.selected > 0),
            final(self)@ == if moved {
                table_select(old(self)@, (old(self)@.selected - 1) as nat)
            } else {
                old(self)@
            },
    {
        if self.selected > 0 {
            self.selected = self.selected - 1;
            true
        } else {
            false
        }
    }

    /// Selects the first row.
    pub fn first_row(&mut self)
        ensures
            final(self)@ == table_select(old(self)@, 0),
    {
        self.selected = 0;
    }

    /// Selects the last row.
    pub fn last_row(&mut self)
        ensures
            final(self)@ == table_select(old(self)@, table_last(old(self)@)),
    {
        if self.rows.len() > 0 {
            self.selected = self.rows.len() - 1;
        } else {
            self.selected = 0;
        }
    }

    /// The selected row, when it is a row of the table.
    pub fn selected_row(&self) -> (r: Option<usize>)
        ensures
            match r {
                Some(i) => table_selected(self@) == Some(i as nat),
                None => table_selected(self@) is None,
            },
    {
        if self.selected < self.rows.len() {
            Some(self.selected)
        } else {
            None
        }
    }

    /// Replaces the rows, leaving the selection as it is.
    pub fn set_rows(&mut self, rows: Vec<Vec<String>>)
        ensures
            final(self)@ == (TableWidgetView { rows: rows.deep_view(), ..old(self)@ }),
    {
        self.rows = rows;
    }

    /// Brings the selection back onto the last row when it is past it.
    pub fn fix_selection(&mut self)
        ensures
            final(self)@ == table_fixed(old(self)@),
    {
        if self.selected >= self.rows.len() {
            if self.rows.len() > 0 {
                self.selected = self.rows.len() - 1;
            } else {
                self.selected = 0;
            }
        }
    }

    /// The table's title.
    pub fn title(&self) -> (r: String)
        ensures
            r@ == self@.title,
    {
        self.title.clone()
    }

    /// The column headers.
    pub fn headers(&self) -> (r: Vec<String>)
        ensures
            r.deep_view() == self@.headers,
    {
        copy_strings(&self.headers)
    }

    /// The position of the selected row (it may lie past the last row).
    pub fn selection(&self) -> (r: usize)
        ensures
            r == self@.selected,
    {
        self.selected
    }

    /// The number of rows.
    pub fn row_count(&self) -> (r: usize)
        ensures
            r == self@.rows.len(),
    {
        self.rows.len()
    }

    /// The cell at `row`, `column`, when there is one.
    pub fn cell(&self, row: usize, column: usize) -> (r: Option<String>)
        ensures
            match r {
                Some(c) => row < self@.rows.len() && column < self@.rows[row as int].len()
                    && c@ == self@.rows[row as int][column as int],
                None => !(row < self@.rows.len() && column < self@.rows[row as int].len()),
            },
    {
        if row < self.rows.len() && column < self.rows[row].len() {
            let c = self.rows[row][column].clone();
            assert(self.rows.deep_view()[row as int] == self.rows[row as int].deep_view());
            Some(c)
        } else {
            None
        }
    }
}

// ---------------------------------------------------------------------------------------
// String list
// ---------------------------------------------------------------------------------------

/// A list of texts with a selected item and a focus flag.
#[derive(Debug)]
pub struct StrList {
    title: String,
    items: Vec<String>,
    selected: usize,
    focused: bool,
}

/// What a `StrList` is.
pub struct StrListView {
    pub title: Seq<char>,
    pub items: Seq<Seq<char>>,
    pub selected: nat,
    pub focused: bool,
}

impl View for StrList {
    type V = StrListView;

    closed spec fn view(&self) -> StrListView {
        StrListView {
            title: self.title@,
            items: self.items.deep_view(),
            selected: self.selected as nat,
            focused: self.focused,
        }
    }
}

/// The list with focus set to `focused`.
pub open spec fn list_focus(l: StrListView, focused: bool) -> StrListView {
    StrListView { focused, ..l }
}

/// The list after moving down, going round to the first item from the last.
pub open spec fn list_down_wrapping(l: StrListView) -> StrListView {
    if l.selected + 1 < l.items.len() {
        StrListView { selected: l.selected + 1, ..l }
    } else {
        StrListView { selected: 0, ..l }
    }
}

/// The list after moving up, going round to the last item from the first.
pub open spec fn list_up_wrapping(l: StrListView) -> StrListView {
    if l.selected > 0 {
        StrListView { selected: (l.selected - 1) as nat, ..l }
    } else {
        StrListView {
            selected: if l.items.len() > 0 {
                (l.items.len() - 1) as nat
            } else {
                0
            },
            ..l
        }
    }
}

/// The list holding `items`, the selection kept where it still names an item.
pub open spec fn list_with_items(l: StrListView, items: Seq<Seq<char>>) -> StrListView {
    StrListView {
        items,
        selected: if l.selected < items.len() {
            l.selected
        } else if items.len() > 0 {
            (items.len() - 1) as nat
        } else {
            0
        },
        ..l
    }
}

/// The selected item, when the list has items.
pub open spec fn list_selected(l: StrListView) -> Option<Seq<char>> {
    if l.selected < l.items.len() {
        Some(l.items[l.selected as int])
    } else {
        None
    }
}

impl StrList {
    #[verifier::type_invariant]
    spec fn selection_in_list(&self) -> bool {
        if self.items.len() == 0 {
            self.selected == 0
        } else {
            self.selected < self.items.len()
        }
    }

    /// An unfocused list titled `title` holding `items`, the first one selected.
    pub fn new(title: &str, items: Vec<String>) -> (r: StrList)
        ensures
            r@ == (StrListView {
                title: title@,
                items: items.deep_view(),
                selected: 0,
                focused: false,
            }),
    {
        StrList { title: String::from_str(title), items, selected: 0, focused: false }
    }

    /// Whether the list has focus.
    pub fn is_focused(&self) -> (r: bool)
        ensures
            r == self@.focused,
    {
        self.focused
    }

    /// Gives the list focus.
    pub fn focus(&mut self)
        ensures
            final(self)@ == list_focus(old(self)@, true),
    {
        proof {
            use_type_invariant(&*self);
        }
        self.focused = true;
    }

    /// Takes focus away from the list.
    pub fn unfocus(&mut self)
        ensures
            final(self)@ == list_focus(old(self)@, false),
    {
        proof {
            use_type_invariant(&*self);
        }
        self.focused = false;
    }

    /// Whether the list has no item.
    pub fn is_empty(&self) -> (r: bool)
        ensures
            r == (self@.items.len() == 0),
    {
        self.items.len() == 0
    }

    /// Moves the selection down, going round to the first item after the last.
    pub fn next_item_wrapping(&mut self)
        ensures
            final(self)@ == list_down_wrapping(old(self)@),
    {
        proof {
            use_type_invariant(&*self);
        }
        if self.selected + 1 < self.items.len() {
            self.selected = self.selected + 1;
        } else {
            self.selected = 0;
        }
    }

    /// Moves the selection up, going round to the last item before the first.
    pub fn previous_item_wrapping(&mut self)
        ensures
            final(self)@ == list_up_wrapping(old(self)@),
    {
        proof {
            use_type_invariant(&*self);
        }
        if self.selected > 0 {
            self.selected = self.selected - 1;
        } else if self.items.len() > 0 {
            self.selected = self.items.len() - 1;
        } else {
            self.selected = 0;
        }
    }

    /// The selected item, when the list has items.
    pub fn selected_item(&self) -> (r: Option<String>)
        ensures
            match r {
                Some(s) => list_selected(self@) == Some(s@),
                None => list_selected(self@) is None,
            },
    {
        if self.selected < self.items.len() {
            let s = self.items[self.selected].clone();
            Some(s)
        } else {
            None
        }
    }

    /// The list's title.
    pub fn title(&self) -> (r: String)
        ensures
            r@ == self@.title,
    {
        self.title.clone()
    }

    /// The position of the selected item.
    pub fn selection(&self) -> (r: usize)
        ensures
            r == self@.selected,
    {
        self.selected
    }

    /// The items of the list.
    pub fn items(&self) -> (r: Vec<String>)
        ensures
            r.deep_view() == self@.items,
    {
        copy_strings(&self.items)
    }

    /// Replaces the items, keeping the selection where it still names an item.
    pub fn set_items(&mut self, items: Vec<String>)
        ensures
            final(self)@ == list_with_items(old(self)@, items.deep_view()),
    {
        proof {
            use_type_invariant(&*self);
        }
        if self.selected >= items.len() {
            if items.len() > 0 {
                self.selected = items.len() - 1;
            } else {
                self.selected = 0;
            }
        }
        self.items = items;
    }
}

} // verus!
