use vstd::prelude::*;
use crate::keys::{
    is_back, is_close, is_down, is_enter, is_up, key_is_back, key_is_char, key_is_close, key_is_down,
    key_is_enter, key_is_up, Key, Signal, SignalView,
};
use crate::help::{
    accounts_help, accounts_help_lines, accounts_help_on_open, accounts_help_on_open_lines,
    help_closed, help_toggled, plain_line, plain_text_lines, HelpModal, HelpModalView, Span,
    SpanView,
};
use crate::text::copy_strings;
use crate::user::{table_row, user_rows, User, UserView};
use crate::widgets::{
    menu_focus, menu_last, menu_select, menu_selected, table_fixed, table_focus, table_last,
    table_select, table_selected, TableWidget, TableWidgetView, WidgetBox, WidgetBoxView,
};

verus! {

/// The page that lists the user accounts: a table whose first row adds a user and whose
/// other rows are the users, and a menu with a single "Back" button.
#[derive(Debug)]
pub struct UserAccounts {
    pub user_table: TableWidget,
    pub buttons: WidgetBox,
    help_modal: HelpModal,
}

/// What a `UserAccounts` page is.
pub struct UserAccountsView {
    pub table: TableWidgetView,
    pub buttons: WidgetBoxView,
    pub help: HelpModalView,
}

impl View for UserAccounts {
    type V = UserAccountsView;

    closed spec fn view(&self) -> UserAccountsView {
        UserAccountsView {
            table: self.user_table@,
            buttons: self.buttons@,
            help: self.help_modal@,
        }
    }
}

/// The column headers of the users table.
pub open spec fn user_headers() -> Seq<Seq<char>> {
    seq!["Username"@, "Groups"@, "Use Home Manager"@]
}

/// The rows of the users table of the accounts page: "Add a new user", then one row
/// per user.
pub open spec fn account_rows(users: Seq<UserView>) -> Seq<Seq<Seq<char>>> {
    seq![seq!["Add a new user"@, ""@]] + users.map_values(|u: UserView| table_row(u))
}

/// The groups of the user at `index`, or none when there is no such user.
pub open spec fn groups_at(users: Seq<UserView>, index: int) -> Seq<Seq<char>> {
    if 0 <= index < users.len() {
        users[index].groups
    } else {
        Seq::empty()
    }
}

/// The accounts page with its table in the given state.
pub open spec fn with_table(a: UserAccountsView, t: TableWidgetView) -> UserAccountsView {
    UserAccountsView { table: t, ..a }
}

/// The accounts page with its menu in the given state.
pub open spec fn with_buttons(a: UserAccountsView, m: WidgetBoxView) -> UserAccountsView {
    UserAccountsView { buttons: m, ..a }
}

/// The accounts page after key `k`, and what it asks for, with `users` the accounts.
///
/// '?' shows or hides the help; while the help shows, Esc or 'q' hides it and other keys
/// do nothing. On the table, Down/'j' and Up/'k' move the selection and, past either
/// end, hand focus to the menu (at its first or last button); Enter/Right/'l' on the
/// first row opens the page that adds a user, on another row the page that alters
/// that user (with the user's groups), and with no row selected reports "No user
/// selected"; Esc/'q'/Left/'h' goes back. On the menu, Down and Up move the selection
/// and, past either end, hand focus back to the table (at its first or last row);
/// Enter/Right/'l' on "Back" goes back, as do Esc/'q'/Left/'h'. Tab moves focus from
/// the table to the menu and back, each keeping its selection. With nothing focused,
/// the menu takes focus.
pub open spec fn accounts_step(a: UserAccountsView, users: Seq<UserView>, k: Key) -> (
    UserAccountsView,
    SignalView,
) {
    if k == Key::Char('?') {
        (UserAccountsView { help: help_toggled(a.help), ..a }, SignalView::Wait)
    } else if is_close(k) && a.help.visible {
        (UserAccountsView { help: help_closed(a.help), ..a }, SignalView::Wait)
    } else if a.help.visible {
        (a, SignalView::Wait)
    } else if a.table.focused {
        if is_down(k) {
            if a.table.selected + 1 < a.table.rows.len() {
                (with_table(a, table_select(a.table, a.table.selected + 1)), SignalView::Wait)
            } else {
                (
                    UserAccountsView {
                        table: table_focus(a.table, false),
                        buttons: menu_select(menu_focus(a.buttons, true), 0),
                        ..a
                    },
                    SignalView::Wait,
                )
            }
        } else if is_up(k) {
            if a.table.selected > 0 {
                (
                    with_table(a, table_select(a.table, (a.table.selected - 1) as nat)),
                    SignalView::Wait,
                )
            } else {
                (
                    UserAccountsView {
                        table: table_focus(a.table, false),
                        buttons: menu_select(menu_focus(a.buttons, true), menu_last(a.buttons)),
                        ..a
                    },
                    SignalView::Wait,
                )
            }
        } else if is_enter(k) {
            match table_selected(a.table) {
                None => (a, SignalView::Error("No user selected"@)),
                Some(row) => if row == 0 {
                    (a, SignalView::PushAddUser)
                } else {
                    (
                        a,
                        SignalView::PushAlterUser {
                            user_index: (row - 1) as nat,
                            groups: groups_at(users, row - 1),
                        },
                    )
                },
            }
        } else if is_back(k) {
            (a, SignalView::Pop)
        } else if k == Key::Tab {
            (
                UserAccountsView {
                    table: table_focus(a.table, false),
                    buttons: menu_focus(a.buttons, true),
                    ..a
                },
                SignalView::Wait,
            )
        } else {
            (a, SignalView::Wait)
        }
    } else if a.buttons.focused {
        if is_down(k) {
            if a.buttons.selected + 1 < a.buttons.labels.len() {
                (with_buttons(a, menu_select(a.buttons, a.buttons.selected + 1)), SignalView::Wait)
            } else {
                (
                    UserAccountsView {
                        buttons: menu_focus(a.buttons, false),
                        table: table_select(table_focus(a.table, true), 0),
                        ..a
                    },
                    SignalView::Wait,
                )
            }
        } else if is_up(k) {
            if a.buttons.selected > 0 {
                (
                    with_buttons(a, menu_select(a.buttons, (a.buttons.selected - 1) as nat)),
                    SignalView::Wait,
                )
            } else {
                (
                    UserAccountsView {
                        buttons: menu_focus(a.buttons, false),
                        table: table_select(table_focus(a.table, true), table_last(a.table)),
                        ..a
                    },
                    SignalView::Wait,
                )
            }
        } else if is_enter(k) {
            if menu_selected(a.buttons) == Some(0nat) {
                (a, SignalView::Pop)
            } else {
                (a, SignalView::Wait)
            }
        } else if is_back(k) {
            (a, SignalView::Pop)
        } else if k == Key::Tab {
            (
                UserAccountsView {
                    buttons: menu_focus(a.buttons, false),
                    table: table_focus(a.table, true),
                    ..a
                },
                SignalView::Wait,
            )
        } else {
            (a, SignalView::Wait)
        }
    } else {
        (with_buttons(a, menu_focus(a.buttons, true)), SignalView::Wait)
    }
}

/// The column headers of the users table.
fn user_headers_vec() -> (r: Vec<String>)
    ensures
        r.deep_view() == user_headers(),
{
    let mut r: Vec<String> = Vec::new();
    r.push(String::from_str("Username"));
    r.push(String::from_str("Groups"));
    r.push(String::from_str("Use Home Manager"));
    assert(r.deep_view() =~= user_headers());
    r
}

/// The rows of the users table of the accounts page.
fn account_rows_vec(users: &Vec<User>) -> (r: Vec<Vec<String>>)
    ensures
        r.deep_view() == account_rows(users.deep_view()),
{
    let mut first: Vec<String> = Vec::new();
    first.push(String::from_str("Add a new user"));
    first.push(String::from_str(""));
    assert(first.deep_view() =~= seq!["Add a new user"@, ""@]);
    let mut rows = user_rows(users);
    let ghost tail = rows.deep_view();
    rows.insert(0, first);
    assert(rows.deep_view() =~= account_rows(users.deep_view())) by {
        assert(rows.deep_view() =~= seq![first.deep_view()] + tail);
    }
    rows
}

impl UserAccounts {
    /// The accounts page for `users`: the table focused on its first row, the "Back"
    /// menu unfocused, the help hidden.
    pub fn new(users: Vec<User>) -> (r: UserAccounts)
        ensures
            r@ == (UserAccountsView {
                table: TableWidgetView {
                    title: "Users"@,
                    headers: user_headers(),
                    rows: account_rows(users.deep_view()),
                    selected: 0,
                    focused: true,
                },
                buttons: WidgetBoxView { labels: seq!["Back"@], selected: 0, focused: false },
                help: HelpModalView {
                    visible: false,
                    title: "User Accounts"@,
                    content: accounts_help_on_open(),
                },
            }),
    {
        let mut labels: Vec<String> = Vec::new();
        labels.push(String::from_str("Back"));
        assert(labels.deep_view() =~= seq!["Back"@]);
        let buttons = WidgetBox::button_menu(labels);
        let mut user_table = TableWidget::new("Users", user_headers_vec(), account_rows_vec(&users));
        user_table.focus();
        UserAccounts {
            user_table,
            buttons,
            help_modal: HelpModal::new("User Accounts", accounts_help_on_open_lines()),
        }
    }

    /// Brings the table up to date with `users` (as each drawing of the page does): the
    /// rows are rebuilt and the selection brought back onto the last row if past it.
    pub fn refresh(&mut self, users: &Vec<User>)
        ensures
            final(self)@ == with_table(
                old(self)@,
                table_fixed(
                    TableWidgetView { rows: account_rows(users.deep_view()), ..old(self)@.table },
                ),
            ),
    {
        self.user_table.set_rows(account_rows_vec(users));
        self.user_table.fix_selection();
    }

    /// The page's help overlay.
    pub fn help_modal(&self) -> (r: &HelpModal)
        ensures
            r@ == self@.help,
    {
        &self.help_modal
    }

    /// The help screen of the page: its title and lines.
    pub fn get_help_content(&self) -> (r: (String, Vec<Vec<Span>>))
        ensures
            r.0@ == "User Accounts"@,
            r.1.deep_view() == accounts_help(),
    {
        (String::from_str("User Accounts"), accounts_help_lines())
    }

    /// The page's title and its one-line description.
    pub fn page_info() -> (r: (String, Vec<Vec<Span>>))
        ensures
            r.0@ == "User Accounts"@,
            r.1.deep_view() == seq![plain_line("Manage user accounts for the system."@)],
    {
        (String::from_str("User Accounts"), plain_text_lines("Manage user accounts for the system."))
    }

    /// The table that shows `users` on the summary screen, or nothing when there is no user.
    pub fn display_widget(users: &Vec<User>) -> (r: Option<TableWidget>)
        ensures
            match r {
                None => users@.len() == 0,
                Some(t) => users@.len() > 0 && t@ == (TableWidgetView {
                    title: "Users"@,
                    headers: user_headers(),
                    rows: users.deep_view().map_values(|u: UserView| table_row(u)),
                    selected: 0,
                    focused: false,
                }),
            },
    {
        if users.len() == 0 {
            return None;
        }
        Some(TableWidget::new("Users", user_headers_vec(), user_rows(users)))
    }

    /// Handles key `k` with `users` the accounts (see `accounts_step`).
    pub fn handle_input(&mut self, users: &Vec<User>, k: Key) -> (r: Signal)
        ensures
            (final(self)@, r@) == accounts_step(old(self)@, users.deep_view(), k),
    {
        if key_is_char(k, '?') {
            self.help_modal.toggle();
            return Signal::Wait;
        }
        if key_is_close(k) && self.help_modal.is_visible() {
            self.help_modal.close();
            return Signal::Wait;
        }
        if self.help_modal.is_visible() {
            return Signal::Wait;
        }
        if self.user_table.is_focused() {
            if key_is_down(k) {
                if !self.user_table.next_row() {
                    self.user_table.unfocus();
                    self.buttons.focus();
                    self.buttons.first_child();
                }
                Signal::Wait
            } else if key_is_up(k) {
                if !self.user_table.previous_row() {
                    self.user_table.unfocus();
                    self.buttons.focus();
                    self.buttons.last_child();
                }
                Signal::Wait
            } else if key_is_enter(k) {
                match self.user_table.selected_row() {
                    None => Signal::Error(String::from_str("No user selected")),
                    Some(row) => {
                        if row == 0 {
                            Signal::PushAddUser
                        } else {
                            let index = row - 1;
                            let groups = if index < users.len() {
                                copy_strings(&users[index].groups)
                            } else {
                                Vec::new()
                            };
                            assert(groups.deep_view() =~= groups_at(
                                users.deep_view(),
                                index as int,
                            ));
                            Signal::PushAlterUser { user_index: index, groups }
                        }
                    },
                }
            } else if key_is_back(k) {
                Signal::Pop
            } else if k == Key::Tab {
                self.user_table.unfocus();
                self.buttons.focus();
                Signal::Wait
            } else {
                Signal::Wait
            }
        } else if self.buttons.is_focused() {
            if key_is_down(k) {
                if !self.buttons.next_child() {
                    self.buttons.unfocus();
                    self.user_table.focus();
                    self.user_table.first_row();
                }
                Signal::Wait
            } else if key_is_up(k) {
                if !self.buttons.prev_child() {
                    self.buttons.unfocus();
                    self.user_table.focus();
                    self.user_table.last_row();
                }
                Signal::Wait
            } else if key_is_enter(k) {
                match self.buttons.selected_child() {
                    Some(0) => Signal::Pop,
                    _ => Signal::Wait,
                }
            } else if key_is_back(k) {
                Signal::Pop
            } else if k == Key::Tab {
                self.buttons.unfocus();
                self.user_table.focus();
                Signal::Wait
            } else {
                Signal::Wait
            }
        } else {
            self.buttons.focus();
            Signal::Wait
        }
    }
}

/// '?' shows the help when hidden and hides it when shown; pressing it twice leaves the
/// page as it was.
pub proof fn lemma_accounts_help_toggles(a: UserAccountsView, users: Seq<UserView>)
    ensures
        accounts_step(a, users, Key::Char('?')).0.help.visible == !a.help.visible,
        accounts_step(accounts_step(a, users, Key::Char('?')).0, users, Key::Char('?')).0 == a,
{
}

/// While the help shows, every key but '?' leaves the table and the menu as they are and
/// asks for nothing: Esc and 'q' only hide the help, other keys do nothing.
pub proof fn lemma_accounts_help_modal(a: UserAccountsView, users: Seq<UserView>, k: Key)
    requires
        a.help.visible,
        k != Key::Char('?'),
    ensures
        accounts_step(a, users, k).1 is Wait,
        (UserAccountsView { help: a.help, ..accounts_step(a, users, k).0 }) == a,
        accounts_step(a, users, k).0.help.visible == !is_close(k),
{
}

/// The alter-user page that the accounts page opens shows the groups of the very user it
/// alters: when a key asks to alter the user at `user_index`, the groups handed on are
/// exactly that user's groups, and that user is the one in the selected row (the row
/// below "Add a new user").
pub proof fn lemma_accounts_alter_hands_user_groups(a: UserAccountsView, users: Seq<UserView>, k: Key)
    ensures
        accounts_step(a, users, k).1 matches SignalView::PushAlterUser { user_index, groups } ==> {
            &&& a.table.selected == user_index + 1
            &&& user_index < users.len() ==> groups == users[user_index as int].groups
            &&& user_index >= users.len() ==> groups.len() == 0
        },
{
}

/// On the focused users table, Down/'j' selects the next row and Up/'k' the previous one;
/// past the last or first row, focus goes to the menu, at its first or last button; the
/// rows never change and nothing is asked.
pub proof fn lemma_accounts_table_moves(a: UserAccountsView, users: Seq<UserView>, k: Key)
    requires
        !a.help.visible,
        a.table.focused,
        is_up(k) || is_down(k),
    ensures
        accounts_step(a, users, k).1 is Wait,
        accounts_step(a, users, k).0.table.rows == a.table.rows,
        is_down(k) && a.table.selected + 1 < a.table.rows.len() ==> {
            &&& accounts_step(a, users, k).0.table.selected == a.table.selected + 1
            &&& accounts_step(a, users, k).0.table.focused
        },
        is_down(k) && a.table.selected + 1 >= a.table.rows.len() ==> {
            &&& !accounts_step(a, users, k).0.table.focused
            &&& accounts_step(a, users, k).0.buttons.focused
            &&& accounts_step(a, users, k).0.buttons.selected == 0
        },
        is_up(k) && a.table.selected > 0 ==> {
            &&& accounts_step(a, users, k).0.table.selected == a.table.selected - 1
            &&& accounts_step(a, users, k).0.table.focused
        },
        is_up(k) && a.table.selected == 0 ==> {
            &&& !accounts_step(a, users, k).0.table.focused
            &&& accounts_step(a, users, k).0.buttons.focused
            &&& accounts_step(a, users, k).0.buttons.selected == (if a.buttons.labels.len() > 0 {
                a.buttons.labels.len() - 1
            } else {
                0
            })
        },
{
}

/// The table and the menu of the accounts page never both have focus: if they did not
/// before a key, they do not after it.
pub proof fn lemma_accounts_focus_kept(a: UserAccountsView, users: Seq<UserView>, k: Key)
    requires
        !(a.table.focused && a.buttons.focused),
    ensures
        !(accounts_step(a, users, k).0.table.focused && accounts_step(a, users, k).0.buttons.focused),
{
}

/// Keys on the accounts page never change the users' table rows, and the page asks to
/// alter a user only for a user index one below the selected row.
pub proof fn lemma_accounts_alter_target(a: UserAccountsView, users: Seq<UserView>, k: Key)
    ensures
        accounts_step(a, users, k).0.table.rows == a.table.rows,
        accounts_step(a, users, k).1 matches SignalView::PushAlterUser { user_index, .. } ==> (
            table_selected(a.table) == Some(user_index + 1)),
{
}

} // verus!
