use vstd::prelude::*;
use crate::help::{add_user_help, add_user_help_lines, help_closed, help_toggled, HelpModal, HelpModalView, Span};
use crate::keys::{is_close, key_is_char, key_is_close, Key, Signal, SignalView};
use crate::user::{User, UserView};
use crate::widgets::{
    editor_after_key, editor_cleared, editor_focus, editor_with_error, LineEditor,
    LineEditorView,
};

verus! {

/// The page that adds a user: a username field, a password field and a confirmation
/// field, one of them focused at a time.
#[derive(Debug)]
pub struct AddUser {
    name_input: LineEditor,
    pass_input: LineEditor,
    pass_confirm: LineEditor,
    help_modal: HelpModal,
    username: Option<String>,
}

/// What an `AddUser` page is: its three fields, whether the help shows, and the
/// username taken from the first field once it was accepted.
pub struct AddUserView {
    pub name: LineEditorView,
    pub pass: LineEditorView,
    pub confirm: LineEditorView,
    pub help: HelpModalView,
    pub username: Option<Seq<char>>,
}

impl View for AddUser {
    type V = AddUserView;

    closed spec fn view(&self) -> AddUserView {
        AddUserView {
            name: self.name_input@,
            pass: self.pass_input@,
            confirm: self.pass_confirm@,
            help: self.help_modal@,
            username: match &self.username {
                Some(u) => Some(u@),
                None => None,
            },
        }
    }
}

/// No two of the page's fields have focus at once.
pub open spec fn add_user_focus_ok(a: AddUserView) -> bool {
    &&& !(a.name.focused && a.pass.focused)
    &&& !(a.name.focused && a.confirm.focused)
    &&& !(a.pass.focused && a.confirm.focused)
}

/// The username field showing that the username cannot be empty.
pub open spec fn name_empty_error(a: AddUserView) -> AddUserView {
    AddUserView { name: editor_with_error(a.name, "Username cannot be empty"@), ..a }
}

/// The username accepted: kept as the username, focus moved to the password field.
pub open spec fn name_accepted(a: AddUserView) -> AddUserView {
    AddUserView {
        username: Some(a.name.text),
        name: editor_focus(a.name, false),
        pass: editor_focus(a.pass, true),
        ..a
    }
}

/// Tab: from the username field, accept a non-empty username and go to the password
/// field (an empty one shows an error and keeps focus); from the password field go to
/// the confirmation; from the confirmation go back to the username; with nothing
/// focused, focus the username.
pub open spec fn add_user_forward(a: AddUserView) -> AddUserView {
    if a.name.focused {
        if a.name.text.len() > 0 {
            name_accepted(a)
        } else {
            name_empty_error(a)
        }
    } else if a.pass.focused {
        AddUserView { pass: editor_focus(a.pass, false), confirm: editor_focus(a.confirm, true), ..a }
    } else if a.confirm.focused {
        AddUserView { confirm: editor_focus(a.confirm, false), name: editor_focus(a.name, true), ..a }
    } else {
        AddUserView { name: editor_focus(a.name, true), ..a }
    }
}

/// Shift+Tab: from the username to the confirmation, from the password to the username,
/// from the confirmation to the password; with nothing focused, focus the username.
pub open spec fn add_user_backward(a: AddUserView) -> AddUserView {
    if a.name.focused {
        AddUserView { name: editor_focus(a.name, false), confirm: editor_focus(a.confirm, true), ..a }
    } else if a.pass.focused {
        AddUserView { pass: editor_focus(a.pass, false), name: editor_focus(a.name, true), ..a }
    } else if a.confirm.focused {
        AddUserView { confirm: editor_focus(a.confirm, false), pass: editor_focus(a.pass, true), ..a }
    } else {
        AddUserView { name: editor_focus(a.name, true), ..a }
    }
}

/// The add-user page after key `k`, and what it asks for.
///
/// '?' shows or hides the help; with the help shown Esc or 'q' hides it; otherwise Esc
/// leaves the page; other keys do nothing while the help shows. Tab and Shift+Tab move
/// between the fields (`add_user_forward`, `add_user_backward`). Enter on the username
/// field accepts a non-empty username; on the password field moves on from a non-empty
/// password; on the confirmation field either reports that the passwords do not match
/// (clearing the confirmation and going back to the password) or, when they match, asks
/// for the password to be hashed. Other keys edit the focused field; with no field
/// focused the username field takes focus.
pub open spec fn add_user_step(a: AddUserView, k: Key) -> (AddUserView, SignalView) {
    if k == Key::Char('?') {
        (AddUserView { help: help_toggled(a.help), ..a }, SignalView::Wait)
    } else if is_close(k) && a.help.visible {
        (AddUserView { help: help_closed(a.help), ..a }, SignalView::Wait)
    } else if k == Key::Esc {
        (a, SignalView::Pop)
    } else if a.help.visible {
        (a, SignalView::Wait)
    } else if k == Key::Tab {
        (add_user_forward(a), SignalView::Wait)
    } else if k == Key::BackTab {
        (add_user_backward(a), SignalView::Wait)
    } else if a.name.focused {
        if k == Key::Enter {
            if a.name.text.len() == 0 {
                (name_empty_error(a), SignalView::Wait)
            } else {
                (name_accepted(a), SignalView::Wait)
            }
        } else {
            (AddUserView { name: editor_after_key(a.name, k), ..a }, SignalView::Wait)
        }
    } else if a.pass.focused {
        if k == Key::Enter {
            if a.pass.text.len() == 0 {
                (
                    AddUserView { pass: editor_with_error(a.pass, "Password cannot be empty"@), ..a },
                    SignalView::Wait,
                )
            } else {
                (
                    AddUserView {
                        pass: editor_focus(a.pass, false),
                        confirm: editor_focus(a.confirm, true),
                        ..a
                    },
                    SignalView::Wait,
                )
            }
        } else {
            (AddUserView { pass: editor_after_key(a.pass, k), ..a }, SignalView::Wait)
        }
    } else if a.confirm.focused {
        if k == Key::Enter {
            if a.pass.text != a.confirm.text {
                (
                    AddUserView {
                        pass: editor_focus(editor_with_error(a.pass, "Passwords do not match"@), true),
                        confirm: editor_focus(editor_cleared(a.confirm), false),
                        ..a
                    },
                    SignalView::Wait,
                )
            } else {
                (a, SignalView::HashPassword { password: a.pass.text })
            }
        } else {
            (AddUserView { confirm: editor_after_key(a.confirm, k), ..a }, SignalView::Wait)
        }
    } else {
        (AddUserView { name: editor_focus(a.name, true), ..a }, SignalView::Wait)
    }
}

/// The user the page adds once the password is hashed to `hash`: the accepted username
/// (empty if none was accepted), that hash, no groups, no home manager.
pub open spec fn new_user(a: AddUserView, hash: Seq<char>) -> UserView {
    UserView {
        username: match a.username {
            Some(u) => u,
            None => Seq::empty(),
        },
        password_hash: hash,
        groups: Seq::empty(),
        home_manager: None,
    }
}

/// The add-user page as it opens: the username field focused, the password fields hiding
/// what is typed, every field empty, the help hidden, no username yet.
pub open spec fn add_user_initial() -> AddUserView {
    AddUserView {
        name: LineEditorView {
            title: "Username"@,
            text: Seq::empty(),
            cursor: 0,
            focused: true,
            secret: false,
            error: None,
        },
        pass: LineEditorView {
            title: "Password"@,
            text: Seq::empty(),
            cursor: 0,
            focused: false,
            secret: true,
            error: None,
        },
        confirm: LineEditorView {
            title: "Confirm Password"@,
            text: Seq::empty(),
            cursor: 0,
            focused: false,
            secret: true,
            error: None,
        },
        help: HelpModalView { visible: false, title: "Add User"@, content: add_user_help() },
        username: None,
    }
}

/// Keys keep the page's focus sound: if no two fields had focus before a key, none have
/// after it.
pub proof fn lemma_add_user_focus_kept(a: AddUserView, k: Key)
    requires
        add_user_focus_ok(a),
    ensures
        add_user_focus_ok(add_user_step(a, k).0),
{
}

/// The page asks for a password to be hashed only from the confirmation field, and only
/// when the password and its confirmation are the same text, which is what it hands on.
pub proof fn lemma_add_user_hashes_confirmed(a: AddUserView, k: Key)
    ensures
        add_user_step(a, k).1 matches SignalView::HashPassword { password } ==> {
            &&& k == Key::Enter
            &&& a.confirm.focused
            &&& password == a.pass.text
            &&& password == a.confirm.text
        },
{
}

/// '?' shows the help when hidden and hides it when shown; pressing it twice leaves the
/// page as it was.
pub proof fn lemma_add_user_help_toggles(a: AddUserView)
    ensures
        add_user_step(a, Key::Char('?')).0.help.visible == !a.help.visible,
        add_user_step(add_user_step(a, Key::Char('?')).0, Key::Char('?')).0 == a,
{
}

/// While the help shows, every key but '?' leaves the fields, the username and the page
/// as they are: Esc and 'q' only hide the help, other keys do nothing.
pub proof fn lemma_add_user_help_modal(a: AddUserView, k: Key)
    requires
        a.help.visible,
        k != Key::Char('?'),
    ensures
        add_user_step(a, k).1 is Wait,
        (AddUserView { help: a.help, ..add_user_step(a, k).0 }) == a,
        add_user_step(a, k).0.help.visible == !is_close(k),
{
}

/// Passwords stay hidden during entry: no key changes whether the password field and the
/// confirmation field hide what is typed (the page opens with both hiding it).
pub proof fn lemma_add_user_passwords_stay_hidden(a: AddUserView, k: Key)
    ensures
        add_user_step(a, k).0.pass.secret == a.pass.secret,
        add_user_step(a, k).0.confirm.secret == a.confirm.secret,
        add_user_initial().pass.secret && add_user_initial().confirm.secret,
{
}

/// Leaving the username field forward with a non-empty name records that name as the
/// username and moves to the password field, by Tab and by Enter alike; and the page
/// never records a username other than the text of its username field.
pub proof fn lemma_add_user_records_username(a: AddUserView, k: Key)
    ensures
        a.name.focused && a.name.text.len() > 0 ==> {
            &&& add_user_forward(a).username == Some(a.name.text)
            &&& add_user_forward(a).pass.focused
            &&& !add_user_forward(a).name.focused
        },
        a.name.focused && a.name.text.len() > 0 && !a.help.visible && (k == Key::Tab || k
            == Key::Enter) ==> {
            &&& add_user_step(a, k).0.username == Some(a.name.text)
            &&& add_user_step(a, k).0.pass.focused
        },
        add_user_step(a, k).0.username != a.username ==> add_user_step(a, k).0.username
            == Some(a.name.text),
{
}

/// The user that the page adds carries the username the page recorded, the hash it was
/// given, no groups and no home manager.
pub proof fn lemma_add_user_new_user(a: AddUserView, name: Seq<char>, hash: Seq<char>)
    requires
        a.username == Some(name),
    ensures
        new_user(a, hash).username == name,
        new_user(a, hash).password_hash == hash,
        new_user(a, hash).groups.len() == 0,
        new_user(a, hash).home_manager is None,
{
}

impl AddUser {
    /// The add-user page: the username field focused, the password fields hiding what is
    /// typed, the help hidden, no username yet.
    pub fn new() -> (r: AddUser)
        ensures
            r@ == add_user_initial(),
    {
        let mut name_input = LineEditor::new("Username");
        name_input.focus();
        AddUser {
            name_input,
            pass_input: LineEditor::new("Password").secret(true),
            pass_confirm: LineEditor::new("Confirm Password").secret(true),
            help_modal: HelpModal::new("Add User", add_user_help_lines()),
            username: None,
        }
    }

    /// Tab (see `add_user_forward`).
    pub fn cycle_forward(&mut self)
        ensures
            final(self)@ == add_user_forward(old(self)@),
    {
        if self.name_input.is_focused() {
            if !self.name_input.is_empty() {
                self.username = Some(self.name_input.value());
                self.name_input.unfocus();
                self.pass_input.focus();
            } else {
                self.name_input.error("Username cannot be empty");
            }
        } else if self.pass_input.is_focused() {
            self.pass_input.unfocus();
            self.pass_confirm.focus();
        } else if self.pass_confirm.is_focused() {
            self.pass_confirm.unfocus();
            self.name_input.focus();
        } else {
            self.name_input.focus();
        }
    }

    /// Shift+Tab (see `add_user_backward`).
    pub fn cycle_backward(&mut self)
        ensures
            final(self)@ == add_user_backward(old(self)@),
    {
        if self.name_input.is_focused() {
            self.name_input.unfocus();
            self.pass_confirm.focus();
        } else if self.pass_input.is_focused() {
            self.pass_input.unfocus();
            self.name_input.focus();
        } else if self.pass_confirm.is_focused() {
            self.pass_confirm.unfocus();
            self.pass_input.focus();
        } else {
            self.name_input.focus();
        }
    }

    /// The username field.
    pub fn name_input(&self) -> (r: &LineEditor)
        ensures
            r@ == self@.name,
    {
        &self.name_input
    }

    /// The password field.
    pub fn pass_input(&self) -> (r: &LineEditor)
        ensures
            r@ == self@.pass,
    {
        &self.pass_input
    }

    /// The confirmation field.
    pub fn pass_confirm(&self) -> (r: &LineEditor)
        ensures
            r@ == self@.confirm,
    {
        &self.pass_confirm
    }

    /// The page's help overlay.
    pub fn help_modal(&self) -> (r: &HelpModal)
        ensures
            r@ == self@.help,
    {
        &self.help_modal
    }

    /// The help screen of the page: its title and lines.
    pub fn get_help_content(&self) -> (r: (String, Vec<Vec<Span>>))
        ensures
            r.0@ == "Add User"@,
            r.1.deep_view() == add_user_help(),
    {
        (String::from_str("Add User"), add_user_help_lines())
    }

    /// Handles key `k` (see `add_user_step`).
    pub fn handle_input(&mut self, k: Key) -> (r: Signal)
        ensures
            (final(self)@, r@) == add_user_step(old(self)@, k),
    {
        if key_is_char(k, '?') {
            self.help_modal.toggle();
            return Signal::Wait;
        }
        if key_is_close(k) && self.help_modal.is_visible() {
            self.help_modal.close();
            return Signal::Wait;
        }
        if k == Key::Esc {
            return Signal::Pop;
        }
        if self.help_modal.is_visible() {
            return Signal::Wait;
        }
        if k == Key::Tab {
            self.cycle_forward();
            return Signal::Wait;
        } else if k == Key::BackTab {
            self.cycle_backward();
            return Signal::Wait;
        }
        if self.name_input.is_focused() {
            if k == Key::Enter {
                if self.name_input.is_empty() {
                    self.name_input.error("Username cannot be empty");
                    return Signal::Wait;
                }
                self.username = Some(self.name_input.value());
                self.name_input.unfocus();
                self.pass_input.focus();
                Signal::Wait
            } else {
                self.name_input.handle_input(k);
                Signal::Wait
            }
        } else if self.pass_input.is_focused() {
            if k == Key::Enter {
                if self.pass_input.is_empty() {
                    self.pass_input.error("Password cannot be empty");
                    return Signal::Wait;
                }
                self.pass_input.unfocus();
                self.pass_confirm.focus();
                Signal::Wait
            } else {
                self.pass_input.handle_input(k);
                Signal::Wait
            }
        } else if self.pass_confirm.is_focused() {
            if k == Key::Enter {
                let pass = self.pass_input.value();
                let confirm = self.pass_confirm.value();
                if pass != confirm {
                    self.pass_input.error("Passwords do not match");
                    self.pass_confirm.clear();
                    self.pass_input.focus();
                    self.pass_confirm.unfocus();
                    return Signal::Wait;
                }
                Signal::HashPassword { password: pass }
            } else {
                self.pass_confirm.handle_input(k);
                Signal::Wait
            }
        } else {
            self.name_input.focus();
            Signal::Wait
        }
    }

    /// Finishes adding the user once the password was hashed: with the hash, appends the
    /// user (`new_user`) to `users` and leaves the page; with a failure message, leaves
    /// `users` as they are and reports "Failed to hash password: " and the message.
    pub fn complete(&self, users: &mut Vec<User>, hashed: Result<String, String>) -> (r: Signal)
        ensures
            match hashed {
                Ok(hash) => {
                    &&& final(users).deep_view() == old(users).deep_view().push(new_user(self@, hash@))
                    &&& r@ is Pop
                },
                Err(msg) => {
                    &&& final(users).deep_view() == old(users).deep_view()
                    &&& r@ == SignalView::Error("Failed to hash password: "@ + msg@)
                },
            },
    {
        match hashed {
            Ok(hash) => {
                let username = match &self.username {
                    Some(u) => u.clone(),
                    None => String::new(),
                };
                let user = User::new(username, hash);
                let ghost before = users.deep_view();
                users.push(user);
                assert(users.deep_view() =~= before.push(new_user(self@, hash@)));
                Signal::Pop
            },
            Err(msg) => {
                let text = String::from_str("Failed to hash password: ").concat(msg.as_str());
                Signal::Error(text)
            },
        }
    }
}

impl Default for AddUser {
    /// The add-user page as `AddUser::new` makes it.
    fn default() -> (r: AddUser)
        ensures
            r@ == add_user_initial(),
    {
        AddUser::new()
    }
}

} // verus!
