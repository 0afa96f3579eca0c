use vstd::prelude::*;
use crate::keys::{
    is_back, is_close, is_down, is_up, key_is_back, key_is_char, key_is_close, key_is_down,
    key_is_up, Key, Signal, SignalView,
};
use crate::help::{
    alter_user_help, alter_user_help_lines, group_editor_hint, group_editor_hint_lines, help_closed,
    help_toggled, HelpModal, HelpModalView, Span,
};
use crate::user::{
    add_group_at, groups_of, groups_with, groups_without, home_manager_of, remove_group_at,
    remove_user_at, set_password_hash, set_username, update_user, User, UserView,
};
use crate::widgets::{
    editor_after_key, editor_cleared, editor_focus, editor_with_error, list_down_wrapping,
    list_focus, list_selected, list_up_wrapping, list_with_items, menu_down_wrapping, menu_focus,
    menu_relabelled, menu_selected, menu_up_wrapping, LineEditor, LineEditorView, StrList,
    StrListView, WidgetBox, WidgetBoxView,
};

verus! {

/// The page that alters one user: a menu (change the username, change the password, edit
/// the groups, configure home manager, delete the user) and the fields each choice opens.
#[derive(Debug)]
pub struct AlterUser {
    pub selected_user: usize,
    pub buttons: WidgetBox,
    pub name_input: LineEditor,
    pub pass_input: LineEditor,
    pub pass_confirm: LineEditor,
    pub group_name_input: LineEditor,
    pub group_list: StrList,
    help_modal: HelpModal,
    confirming_delete: bool,
}

/// What an `AlterUser` page is.
pub struct AlterUserView {
    pub selected_user: nat,
    pub buttons: WidgetBoxView,
    pub name: LineEditorView,
    pub pass: LineEditorView,
    pub confirm: LineEditorView,
    pub group_input: LineEditorView,
    pub group_list: StrListView,
    pub help: HelpModalView,
    /// "Delete user" was chosen once and now reads "Really?".
    pub confirming_delete: bool,
}

impl View for AlterUser {
    type V = AlterUserView;

    closed spec fn view(&self) -> AlterUserView {
        AlterUserView {
            selected_user: self.selected_user as nat,
            buttons: self.buttons@,
            name: self.name_input@,
            pass: self.pass_input@,
            confirm: self.pass_confirm@,
            group_input: self.group_name_input@,
            group_list: self.group_list@,
            help: self.help_modal@,
            confirming_delete: self.confirming_delete,
        }
    }
}

/// The labels of the page's menu; the last one reads "Really?" while a deletion waits
/// for confirmation.
pub open spec fn alter_menu_labels(confirming_delete: bool) -> Seq<Seq<char>> {
    seq![
        "Change username"@,
        "Change password"@,
        "Edit Groups"@,
        "Configure Home Manager"@,
        if confirming_delete {
            "Really?"@
        } else {
            "Delete user"@
        },
    ]
}

/// The home-manager configuration of the user at `index`, or none when there is no such user.
pub open spec fn home_manager_at(users: Seq<UserView>, index: int) -> Option<Seq<Seq<char>>> {
    if 0 <= index < users.len() {
        users[index].home_manager
    } else {
        None
    }
}

/// No two of the page's parts (menu, username field, password field, confirmation field,
/// group field, group list) have focus at once.
pub open spec fn alter_focus_ok(a: AlterUserView) -> bool {
    let f = seq![
        a.buttons.focused,
        a.name.focused,
        a.pass.focused,
        a.confirm.focused,
        a.group_input.focused,
        a.group_list.focused,
    ];
    forall|i: int, j: int| 0 <= i < 6 && 0 <= j < 6 && i != j ==> !(f[i] && f[j])
}

/// The main menu after key `k`. Any key but Enter first withdraws a pending deletion (the
/// last button reads "Delete user" again). Down/'j' and Up/'k' move round the menu.
/// Enter opens the chosen part: the username field, the password field or the group
/// field; "Configure Home Manager" asks for the home-manager page of this user with the
/// user's current configuration; "Delete user" asks for confirmation the first time and,
/// the second time, removes the user (when it exists) and leaves the page.
/// Esc/'q'/Left/'h' leaves the page.
pub open spec fn main_menu_step(a: AlterUserView, users: Seq<UserView>, k: Key) -> (
    AlterUserView,
    Seq<UserView>,
    SignalView,
) {
    let a1 = if a.confirming_delete && k != Key::Enter {
        AlterUserView {
            confirming_delete: false,
            buttons: menu_relabelled(a.buttons, alter_menu_labels(false)),
            ..a
        }
    } else {
        a
    };
    if is_down(k) {
        (AlterUserView { buttons: menu_down_wrapping(a1.buttons), ..a1 }, users, SignalView::Wait)
    } else if is_up(k) {
        (AlterUserView { buttons: menu_up_wrapping(a1.buttons), ..a1 }, users, SignalView::Wait)
    } else if k == Key::Enter {
        let choice = menu_selected(a1.buttons);
        if choice == Some(0nat) {
            (
                AlterUserView {
                    buttons: menu_focus(a1.buttons, false),
                    name: editor_focus(a1.name, true),
                    ..a1
                },
                users,
                SignalView::Wait,
            )
        } else if choice == Some(1nat) {
            (
                AlterUserView {
                    buttons: menu_focus(a1.buttons, false),
                    pass: editor_focus(a1.pass, true),
                    ..a1
                },
                users,
                SignalView::Wait,
            )
        } else if choice == Some(2nat) {
            (
                AlterUserView {
                    buttons: menu_focus(a1.buttons, false),
                    group_input: editor_focus(a1.group_input, true),
                    ..a1
                },
                users,
                SignalView::Wait,
            )
        } else if choice == Some(3nat) {
            (
                a1,
                users,
                SignalView::PushConfigureHomeManager {
                    user_index: a1.selected_user,
                    existing: home_manager_at(users, a1.selected_user as int),
                },
            )
        } else if choice == Some(4nat) {
            if !a1.confirming_delete {
                (
                    AlterUserView {
                        confirming_delete: true,
                        buttons: menu_relabelled(a1.buttons, alter_menu_labels(true)),
                        ..a1
                    },
                    users,
                    SignalView::Wait,
                )
            } else {
                (
                    a1,
                    if a1.selected_user < users.len() {
                        users.remove(a1.selected_user as int)
                    } else {
                        users
                    },
                    SignalView::Pop,
                )
            }
        } else {
            (a1, users, SignalView::Wait)
        }
    } else if is_back(k) {
        (a1, users, SignalView::Pop)
    } else {
        (a1, users, SignalView::Wait)
    }
}

/// The username field after key `k`: Enter with a non-empty name renames the user (when
/// it exists) and goes back to the menu, with an empty one shows "Username cannot be
/// empty"; Esc/'q' goes back to the menu; other keys edit the field.
pub open spec fn name_change_step(a: AlterUserView, users: Seq<UserView>, k: Key) -> (
    AlterUserView,
    Seq<UserView>,
    SignalView,
) {
    if k == Key::Enter {
        if a.name.text.len() == 0 {
            (
                AlterUserView { name: editor_with_error(a.name, "Username cannot be empty"@), ..a },
                users,
                SignalView::Wait,
            )
        } else {
            (
                AlterUserView {
                    name: editor_focus(a.name, false),
                    buttons: menu_focus(a.buttons, true),
                    ..a
                },
                update_user(
                    users,
                    a.selected_user as int,
                    |u: UserView| UserView { username: a.name.text, ..u },
                ),
                SignalView::Wait,
            )
        }
    } else if is_close(k) {
        (
            AlterUserView { name: editor_focus(a.name, false), buttons: menu_focus(a.buttons, true), ..a },
            users,
            SignalView::Wait,
        )
    } else {
        (AlterUserView { name: editor_after_key(a.name, k), ..a }, users, SignalView::Wait)
    }
}

/// The password fields after key `k`. On the password field: Tab goes to the
/// confirmation, Enter does too unless the password is empty ("Password cannot be
/// empty"), Esc goes back to the menu, other keys edit. On the confirmation: Tab goes
/// back to the password, Esc to the menu, Enter either reports "Passwords do not match"
/// (emptying both fields) or asks for the password to be hashed; other keys edit. With
/// neither focused, the password field takes focus.
pub open spec fn pass_change_step(a: AlterUserView, k: Key) -> (AlterUserView, SignalView) {
    if a.pass.focused {
        if k == Key::Tab {
            (
                AlterUserView { pass: editor_focus(a.pass, false), confirm: editor_focus(a.confirm, true), ..a },
                SignalView::Wait,
            )
        } else if k == Key::Enter {
            if a.pass.text.len() == 0 {
                (
                    AlterUserView { pass: editor_with_error(a.pass, "Password cannot be empty"@), ..a },
                    SignalView::Wait,
                )
            } else {
                (
                    AlterUserView {
                        pass: editor_focus(a.pass, false),
                        confirm: editor_focus(a.confirm, true),
                        ..a
                    },
                    SignalView::Wait,
                )
            }
        } else if k == Key::Esc {
            (
                AlterUserView { pass: editor_focus(a.pass, false), buttons: menu_focus(a.buttons, true), ..a },
                SignalView::Wait,
            )
        } else {
            (AlterUserView { pass: editor_after_key(a.pass, k), ..a }, SignalView::Wait)
        }
    } else if a.confirm.focused {
        if k == Key::Tab {
            (
                AlterUserView { confirm: editor_focus(a.confirm, false), pass: editor_focus(a.pass, true), ..a },
                SignalView::Wait,
            )
        } else if k == Key::Esc {
            (
                AlterUserView {
                    confirm: editor_focus(a.confirm, false),
                    buttons: menu_focus(a.buttons, true),
                    ..a
                },
                SignalView::Wait,
            )
        } else if k == Key::Enter {
            if a.pass.text != a.confirm.text {
                (
                    AlterUserView {
                        confirm: editor_cleared(editor_with_error(a.confirm, "Passwords do not match"@)),
                        pass: editor_cleared(a.pass),
                        ..a
                    },
                    SignalView::Wait,
                )
            } else {
                (a, SignalView::HashPassword { password: a.pass.text })
            }
        } else {
            (AlterUserView { confirm: editor_after_key(a.confirm, k), ..a }, SignalView::Wait)
        }
    } else {
        (AlterUserView { pass: editor_focus(a.pass, true), ..a }, SignalView::Wait)
    }
}

/// Enter on the group list: the selected group, if any, leaves the user (when the user
/// exists) and the list shows the user's groups again.
pub open spec fn edit_groups_enter_list(a: AlterUserView, users: Seq<UserView>) -> (
    AlterUserView,
    Seq<UserView>,
) {
    let sel = a.selected_user as int;
    match list_selected(a.group_list) {
        Some(group) => if 0 <= sel < users.len() {
            let users2 = update_user(
                users,
                sel,
                |u: UserView| UserView { groups: groups_without(u.groups, group), ..u },
            );
            (AlterUserView { group_list: list_with_items(a.group_list, users2[sel].groups), ..a }, users2)
        } else {
            (a, users)
        },
        None => (a, users),
    }
}

/// Whether key `k` on the group field would add a group to a user that does not exist,
/// which the page cannot do (it would read that user's groups back).
pub open spec fn group_add_out_of_range(a: AlterUserView, users: Seq<UserView>, k: Key) -> bool {
    a.group_input.focused && k == Key::Enter && a.group_input.text.len() > 0 && a.selected_user
        >= users.len()
}

/// The group editor after key `k`. On the group field: Enter with an empty name shows
/// "Group name cannot be empty"; with a group the user already has, "User already in
/// group"; otherwise the group is added last, the field emptied and the list refreshed.
/// Tab goes to the list when it has items, Esc back to the menu, other keys edit. On the
/// list: Down/'j' and Up/'k' move round it; Enter removes the selected group from the
/// user and refreshes the list, and when the list is then empty the group field takes
/// focus; Tab goes to the group field; Esc/'q' back to the menu. With neither focused,
/// the group field takes focus.
pub open spec fn edit_groups_step(a: AlterUserView, users: Seq<UserView>, k: Key) -> (
    AlterUserView,
    Seq<UserView>,
    SignalView,
) {
    let sel = a.selected_user as int;
    if a.group_input.focused {
        if k == Key::Enter {
            let group = a.group_input.text;
            if group.len() == 0 {
                (
                    AlterUserView {
                        group_input: editor_with_error(a.group_input, "Group name cannot be empty"@),
                        ..a
                    },
                    users,
                    SignalView::Wait,
                )
            } else if 0 <= sel < users.len() && users[sel].groups.contains(group) {
                (
                    AlterUserView {
                        group_input: editor_with_error(a.group_input, "User already in group"@),
                        ..a
                    },
                    users,
                    SignalView::Wait,
                )
            } else {
                let users2 = update_user(
                    users,
                    sel,
                    |u: UserView| UserView { groups: groups_with(u.groups, group), ..u },
                );
                (
                    AlterUserView {
                        group_input: editor_cleared(a.group_input),
                        group_list: list_with_items(a.group_list, users2[sel].groups),
                        ..a
                    },
                    users2,
                    SignalView::Wait,
                )
            }
        } else if k == Key::Tab {
            if a.group_list.items.len() > 0 {
                (
                    AlterUserView {
                        group_input: editor_focus(a.group_input, false),
                        group_list: list_focus(a.group_list, true),
                        ..a
                    },
                    users,
                    SignalView::Wait,
                )
            } else {
                (a, users, SignalView::Wait)
            }
        } else if k == Key::Esc {
            (
                AlterUserView {
                    group_input: editor_focus(a.group_input, false),
                    buttons: menu_focus(a.buttons, true),
                    ..a
                },
                users,
                SignalView::Wait,
            )
        } else {
            (
                AlterUserView { group_input: editor_after_key(a.group_input, k), ..a },
                users,
                SignalView::Wait,
            )
        }
    } else if a.group_list.focused {
        if is_down(k) {
            (AlterUserView { group_list: list_down_wrapping(a.group_list), ..a }, users, SignalView::Wait)
        } else if is_up(k) {
            (AlterUserView { group_list: list_up_wrapping(a.group_list), ..a }, users, SignalView::Wait)
        } else if k == Key::Enter {
            let (a2, users2) = edit_groups_enter_list(a, users);
            if a2.group_list.items.len() == 0 {
                (
                    AlterUserView {
                        group_list: list_focus(a2.group_list, false),
                        group_input: editor_focus(a2.group_input, true),
                        ..a2
                    },
                    users2,
                    SignalView::Wait,
                )
            } else {
                (a2, users2, SignalView::Wait)
            }
        } else if k == Key::Tab {
            (
                AlterUserView {
                    group_list: list_focus(a.group_list, false),
                    group_input: editor_focus(a.group_input, true),
                    ..a
                },
                users,
                SignalView::Wait,
            )
        } else if is_close(k) {
            (
                AlterUserView {
                    group_list: list_focus(a.group_list, false),
                    buttons: menu_focus(a.buttons, true),
                    ..a
                },
                users,
                SignalView::Wait,
            )
        } else {
            (a, users, SignalView::Wait)
        }
    } else {
        (AlterUserView { group_input: editor_focus(a.group_input, true), ..a }, users, SignalView::Wait)
    }
}

/// Whether the help overlay takes key `k`: '?' always; Esc/'q' and every other key
/// while the help shows.
pub open spec fn alter_help_takes(a: AlterUserView, k: Key) -> bool {
    k == Key::Char('?') || a.help.visible
}

/// The alter-user page after key `k`, with `users` the accounts, and what it asks for.
/// '?' shows or hides the help; while it shows, Esc/'q' hides it and other keys do
/// nothing. Otherwise the key goes to the focused part: the menu (`main_menu_step`), the
/// username field (`name_change_step`), the password fields (`pass_change_step`) or the
/// group editor (`edit_groups_step`); with nothing focused the menu takes focus.
pub open spec fn alter_step(a: AlterUserView, users: Seq<UserView>, k: Key) -> (
    AlterUserView,
    Seq<UserView>,
    SignalView,
) {
    if k == Key::Char('?') {
        (AlterUserView { help: help_toggled(a.help), ..a }, users, SignalView::Wait)
    } else if is_close(k) && a.help.visible {
        (AlterUserView { help: help_closed(a.help), ..a }, users, SignalView::Wait)
    } else if a.help.visible {
        (a, users, SignalView::Wait)
    } else if a.buttons.focused {
        main_menu_step(a, users, k)
    } else if a.name.focused {
        name_change_step(a, users, k)
    } else if a.pass.focused || a.confirm.focused {
        let (a2, s) = pass_change_step(a, k);
        (a2, users, s)
    } else if a.group_input.focused || a.group_list.focused {
        edit_groups_step(a, users, k)
    } else {
        (AlterUserView { buttons: menu_focus(a.buttons, true), ..a }, users, SignalView::Wait)
    }
}

/// Whether key `k` on the page would add a group to a user that does not exist.
pub open spec fn alter_out_of_range(a: AlterUserView, users: Seq<UserView>, k: Key) -> bool {
    &&& !alter_help_takes(a, k)
    &&& !a.buttons.focused
    &&& !a.name.focused
    &&& !(a.pass.focused || a.confirm.focused)
    &&& group_add_out_of_range(a, users, k)
}

/// No two parts of the alter-user page have focus at once: if that held before a key, it
/// holds after it.
pub proof fn lemma_alter_focus_kept(a: AlterUserView, users: Seq<UserView>, k: Key)
    requires
        alter_focus_ok(a),
    ensures
        alter_focus_ok(alter_step(a, users, k).0),
{
    let b = alter_step(a, users, k).0;
    let f = seq![a.buttons.focused, a.name.focused, a.pass.focused, a.confirm.focused, a.group_input.focused, a.group_list.focused];
    let g = seq![b.buttons.focused, b.name.focused, b.pass.focused, b.confirm.focused, b.group_input.focused, b.group_list.focused];
    assert(forall|i: int, j: int| 0 <= i < 6 && 0 <= j < 6 && i != j ==> !(f[i] && f[j]));
    assert forall|i: int, j: int| 0 <= i < 6 && 0 <= j < 6 && i != j implies !(g[i] && g[j]) by {
        assert(!(f[0] && f[1]) && !(f[0] && f[2]) && !(f[0] && f[3]) && !(f[0] && f[4]) && !(f[0] && f[5]));
        assert(!(f[1] && f[2]) && !(f[1] && f[3]) && !(f[1] && f[4]) && !(f[1] && f[5]));
        assert(!(f[2] && f[3]) && !(f[2] && f[4]) && !(f[2] && f[5]));
        assert(!(f[3] && f[4]) && !(f[3] && f[5]) && !(f[4] && f[5]));
    }
}

/// A user is removed only on confirmation: while no deletion waits for confirmation, a
/// key on the alter-user page never changes how many users there are.
pub proof fn lemma_delete_needs_confirmation(a: AlterUserView, users: Seq<UserView>, k: Key)
    requires
        !a.confirming_delete,
    ensures
        alter_step(a, users, k).1.len() == users.len(),
{
}

/// The alter-user page touches no user but its own: unless it removes that user, every
/// other user stays as it was.
pub proof fn lemma_alter_touches_only_selected(a: AlterUserView, users: Seq<UserView>, k: Key)
    ensures
        alter_step(a, users, k).1.len() == users.len() ==> forall|j: int|
            0 <= j < users.len() && j != a.selected_user ==> #[trigger] alter_step(a, users, k).1[j]
                == users[j],
{
}

/// The alter-user page keeps every user's groups free of repeats: if no user listed a
/// group twice before a key, none does after it.
pub proof fn lemma_alter_groups_distinct(a: AlterUserView, users: Seq<UserView>, k: Key)
    requires
        forall|j: int| 0 <= j < users.len() ==> (#[trigger] users[j]).groups.no_duplicates(),
    ensures
        forall|j: int|
            0 <= j < alter_step(a, users, k).1.len() ==> (#[trigger] alter_step(a, users, k).1[j]).groups.no_duplicates(),
{
    let sel = a.selected_user as int;
    let out = alter_step(a, users, k).1;
    if 0 <= sel < users.len() {
        crate::user::lemma_groups_with_distinct(users[sel].groups, a.group_input.text);
        crate::user::lemma_groups_without(users[sel].groups, match list_selected(a.group_list) {
            Some(g) => g,
            None => Seq::empty(),
        });
    }
    assert forall|j: int| 0 <= j < out.len() implies (#[trigger] out[j]).groups.no_duplicates() by {
        if out.len() == users.len() {
            if j != sel {
                lemma_alter_touches_only_selected(a, users, k);
                assert(out[j] == users[j]);
            }
        } else {
            let idx = if j < sel { j } else { j + 1 };
            assert(out[j] == users[idx]);
        }
    }
}

/// The page asks for a password to be hashed only from the confirmation field, and only
/// when the password and its confirmation are the same text, which is what it hands on.
pub proof fn lemma_alter_hashes_confirmed(a: AlterUserView, users: Seq<UserView>, k: Key)
    ensures
        alter_step(a, users, k).2 matches SignalView::HashPassword { password } ==> {
            &&& k == Key::Enter
            &&& a.confirm.focused
            &&& password == a.pass.text
            &&& password == a.confirm.text
        },
{
}

/// '?' shows the help when hidden and hides it when shown; pressing it twice leaves the
/// page and the users as they were.
pub proof fn lemma_alter_help_toggles(a: AlterUserView, users: Seq<UserView>)
    ensures
        alter_step(a, users, Key::Char('?')).0.help.visible == !a.help.visible,
        alter_step(a, users, Key::Char('?')).1 == users,
        alter_step(alter_step(a, users, Key::Char('?')).0, users, Key::Char('?')).0 == a,
{
}

/// While the help shows, every key but '?' leaves the users, the menu and the fields as
/// they are and asks for nothing: Esc and 'q' only hide the help, other keys do nothing.
pub proof fn lemma_alter_help_modal(a: AlterUserView, users: Seq<UserView>, k: Key)
    requires
        a.help.visible,
        k != Key::Char('?'),
    ensures
        alter_step(a, users, k).1 == users,
        alter_step(a, users, k).2 is Wait,
        (AlterUserView { help: a.help, ..alter_step(a, users, k).0 }) == a,
        alter_step(a, users, k).0.help.visible == !is_close(k),
{
}

/// Passwords stay hidden during entry: no key changes whether the new-password field and
/// its confirmation hide what is typed.
pub proof fn lemma_alter_passwords_stay_hidden(a: AlterUserView, users: Seq<UserView>, k: Key)
    ensures
        alter_step(a, users, k).0.pass.secret == a.pass.secret,
        alter_step(a, users, k).0.confirm.secret == a.confirm.secret,
{
}

/// On the focused group list, Up/'k' selects the item above, going round to the last item
/// from the first, and Down/'j' the item below, going round to the first from the last;
/// neither changes the list's items nor any user.
pub proof fn lemma_group_list_moves(a: AlterUserView, users: Seq<UserView>, k: Key)
    requires
        !a.group_input.focused,
        a.group_list.focused,
        a.group_list.selected < a.group_list.items.len(),
        is_up(k) || is_down(k),
    ensures
        edit_groups_step(a, users, k).1 == users,
        edit_groups_step(a, users, k).2 is Wait,
        edit_groups_step(a, users, k).0.group_list.items == a.group_list.items,
        edit_groups_step(a, users, k).0.group_list.focused,
        is_up(k) && a.group_list.selected > 0 ==> edit_groups_step(a, users, k).0.group_list.selected
            == a.group_list.selected - 1,
        is_up(k) && a.group_list.selected == 0 ==> edit_groups_step(a, users, k).0.group_list.selected
            == a.group_list.items.len() - 1,
        is_down(k) && a.group_list.selected + 1 < a.group_list.items.len() ==> edit_groups_step(
            a,
            users,
            k,
        ).0.group_list.selected == a.group_list.selected + 1,
        is_down(k) && a.group_list.selected + 1 == a.group_list.items.len() ==> edit_groups_step(
            a,
            users,
            k,
        ).0.group_list.selected == 0,
{
}

/// The same moves hold for the whole page when the group list has focus and the help is
/// hidden: the key reaches the group list.
pub proof fn lemma_alter_group_list_moves(a: AlterUserView, users: Seq<UserView>, k: Key)
    requires
        alter_focus_ok(a),
        !a.help.visible,
        a.group_list.focused,
        a.group_list.selected < a.group_list.items.len(),
        is_up(k) || is_down(k),
    ensures
        alter_step(a, users, k) == edit_groups_step(a, users, k),
        is_up(k) && a.group_list.selected > 0 ==> alter_step(a, users, k).0.group_list.selected
            == a.group_list.selected - 1,
        is_up(k) && a.group_list.selected == 0 ==> alter_step(a, users, k).0.group_list.selected
            == a.group_list.items.len() - 1,
{
    let f = seq![a.buttons.focused, a.name.focused, a.pass.focused, a.confirm.focused, a.group_input.focused, a.group_list.focused];
    assert(f[5]);
    assert(!(f[0] && f[5]) && !(f[1] && f[5]) && !(f[2] && f[5]) && !(f[3] && f[5]) && !(f[4] && f[5]));
}

/// On the main menu, with no deletion pending, Down/'j' selects the next button, going
/// round to the first from the last, and Up/'k' the previous one, going round to the last
/// from the first; the menu keeps focus and its labels, and no user changes.
pub proof fn lemma_main_menu_moves(a: AlterUserView, users: Seq<UserView>, k: Key)
    requires
        !a.confirming_delete,
        a.buttons.selected < a.buttons.labels.len(),
        is_up(k) || is_down(k),
    ensures
        main_menu_step(a, users, k).1 == users,
        main_menu_step(a, users, k).2 is Wait,
        main_menu_step(a, users, k).0.buttons.labels == a.buttons.labels,
        main_menu_step(a, users, k).0.buttons.focused == a.buttons.focused,
        is_down(k) && a.buttons.selected + 1 < a.buttons.labels.len() ==> main_menu_step(
            a,
            users,
            k,
        ).0.buttons.selected == a.buttons.selected + 1,
        is_down(k) && a.buttons.selected + 1 == a.buttons.labels.len() ==> main_menu_step(
            a,
            users,
            k,
        ).0.buttons.selected == 0,
        is_up(k) && a.buttons.selected > 0 ==> main_menu_step(a, users, k).0.buttons.selected
            == a.buttons.selected - 1,
        is_up(k) && a.buttons.selected == 0 ==> main_menu_step(a, users, k).0.buttons.selected
            == a.buttons.labels.len() - 1,
{
}

/// A pending deletion is withdrawn by any key but Enter: the last button reads
/// "Delete user" again and no user is removed.
pub proof fn lemma_deletion_withdrawn(a: AlterUserView, users: Seq<UserView>, k: Key)
    requires
        a.confirming_delete,
        k != Key::Enter,
    ensures
        !main_menu_step(a, users, k).0.confirming_delete,
        main_menu_step(a, users, k).0.buttons.labels == alter_menu_labels(false),
        main_menu_step(a, users, k).1 == users,
{
}

/// What Enter on the main menu does with the users: asking for the home-manager page
/// names the page's own user and hands on that user's current configuration (none when
/// the user does not exist); leaving after a confirmed deletion removes exactly the
/// page's user, the others keeping their order; any other Enter leaves the users alone.
pub proof fn lemma_main_menu_enter(a: AlterUserView, users: Seq<UserView>)
    ensures
        main_menu_step(a, users, Key::Enter).2 matches SignalView::PushConfigureHomeManager {
            user_index,
            existing,
        } ==> {
            &&& user_index == a.selected_user
            &&& a.selected_user < users.len() ==> existing == users[a.selected_user as int].home_manager
            &&& a.selected_user >= users.len() ==> existing is None
        },
        main_menu_step(a, users, Key::Enter).1 != users ==> {
            &&& a.confirming_delete
            &&& a.selected_user < users.len()
            &&& main_menu_step(a, users, Key::Enter).1.len() == users.len() - 1
            &&& forall|j: int|
                0 <= j < users.len() - 1 ==> #[trigger] main_menu_step(a, users, Key::Enter).1[j]
                    == if j < a.selected_user {
                    users[j]
                } else {
                    users[j + 1]
                }
        },
        a.confirming_delete && menu_selected(a.buttons) == Some(4nat) && a.selected_user
            < users.len() ==> {
            &&& main_menu_step(a, users, Key::Enter).1 == users.remove(a.selected_user as int)
            &&& main_menu_step(a, users, Key::Enter).2 is Pop
        },
{
}

/// Enter on the username field with a non-empty name gives the page's user exactly that
/// name, keeping its hash, groups and home manager, and goes back to the menu.
pub proof fn lemma_rename(a: AlterUserView, users: Seq<UserView>)
    requires
        a.name.text.len() > 0,
        a.selected_user < users.len(),
    ensures
        name_change_step(a, users, Key::Enter).1.len() == users.len(),
        name_change_step(a, users, Key::Enter).1[a.selected_user as int].username == a.name.text,
        name_change_step(a, users, Key::Enter).1[a.selected_user as int].password_hash
            == users[a.selected_user as int].password_hash,
        name_change_step(a, users, Key::Enter).1[a.selected_user as int].groups
            == users[a.selected_user as int].groups,
        name_change_step(a, users, Key::Enter).1[a.selected_user as int].home_manager
            == users[a.selected_user as int].home_manager,
        name_change_step(a, users, Key::Enter).0.buttons.focused,
        !name_change_step(a, users, Key::Enter).0.name.focused,
{
}

/// Enter on the group field adds a new group to the page's user: a name the user does not
/// have yet is appended to its groups, the field is emptied and the list shows the new
/// groups; a name it has already leaves the groups as they are.
pub proof fn lemma_group_added(a: AlterUserView, users: Seq<UserView>)
    requires
        a.group_input.focused,
        a.group_input.text.len() > 0,
        a.selected_user < users.len(),
    ensures
        edit_groups_step(a, users, Key::Enter).1.len() == users.len(),
        !users[a.selected_user as int].groups.contains(a.group_input.text) ==> {
            &&& edit_groups_step(a, users, Key::Enter).1[a.selected_user as int].groups
                == users[a.selected_user as int].groups.push(a.group_input.text)
            &&& edit_groups_step(a, users, Key::Enter).0.group_list.items
                == users[a.selected_user as int].groups.push(a.group_input.text)
            &&& edit_groups_step(a, users, Key::Enter).0.group_input.text.len() == 0
        },
        users[a.selected_user as int].groups.contains(a.group_input.text)
            ==> edit_groups_step(a, users, Key::Enter).1 == users,
{
}

/// Enter on the group list takes the selected group out of the page's user's groups,
/// keeping every other group, and the list shows the groups that remain.
pub proof fn lemma_group_removed(a: AlterUserView, users: Seq<UserView>)
    requires
        !a.group_input.focused,
        a.group_list.focused,
        a.group_list.selected < a.group_list.items.len(),
        a.selected_user < users.len(),
    ensures
        ({
            let removed = a.group_list.items[a.group_list.selected as int];
            let after = edit_groups_step(a, users, Key::Enter);
            &&& after.1.len() == users.len()
            &&& !after.1[a.selected_user as int].groups.contains(removed)
            &&& forall|g: Seq<char>|
                g != removed ==> (after.1[a.selected_user as int].groups.contains(g)
                    <==> users[a.selected_user as int].groups.contains(g))
            &&& after.0.group_list.items == after.1[a.selected_user as int].groups
        }),
{
    let removed = a.group_list.items[a.group_list.selected as int];
    crate::user::lemma_groups_without(users[a.selected_user as int].groups, removed);
}

/// The part of the alter-user page that is drawn.
#[derive(Debug, Clone, Copy, PartialEq, Eq, Structural)]
pub enum AlterPart {
    MainMenu,
    NameChange,
    PassChange,
    EditGroups,
}

/// The part drawn for a page in state `a`: the menu, the username field, the password
/// fields or the group editor, whichever has focus (the menu when none has).
pub open spec fn drawn_part(a: AlterUserView) -> AlterPart {
    if a.buttons.focused {
        AlterPart::MainMenu
    } else if a.name.focused {
        AlterPart::NameChange
    } else if a.pass.focused || a.confirm.focused {
        AlterPart::PassChange
    } else if a.group_input.focused || a.group_list.focused {
        AlterPart::EditGroups
    } else {
        AlterPart::MainMenu
    }
}

/// The labels of the page's menu.
fn alter_menu_labels_vec(confirming_delete: bool) -> (r: Vec<String>)
    ensures
        r.deep_view() == alter_menu_labels(confirming_delete),
{
    let mut r: Vec<String> = Vec::new();
    r.push(String::from_str("Change username"));
    r.push(String::from_str("Change password"));
    r.push(String::from_str("Edit Groups"));
    r.push(String::from_str("Configure Home Manager"));
    if confirming_delete {
        r.push(String::from_str("Really?"));
    } else {
        r.push(String::from_str("Delete user"));
    }
    assert(r.deep_view() =~= alter_menu_labels(confirming_delete));
    r
}

impl AlterUser {
    /// The page that alters the user at `selected_user_idx`, showing `groups` in its group
    /// list: the menu focused on its first button, every field empty and unfocused (the
    /// password fields hiding what is typed), no deletion pending.
    pub fn new(selected_user_idx: usize, groups: Vec<String>) -> (r: AlterUser)
        ensures
            r@.selected_user == selected_user_idx,
            r@.buttons == (WidgetBoxView {
                labels: alter_menu_labels(false),
                selected: 0,
                focused: true,
            }),
            r@.name == (LineEditorView {
                title: "New username"@,
                text: Seq::empty(),
                cursor: 0,
                focused: false,
                secret: false,
                error: None,
            }),
            r@.pass == (LineEditorView {
                title: "New password"@,
                text: Seq::empty(),
                cursor: 0,
                focused: false,
                secret: true,
                error: None,
            }),
            r@.confirm == (LineEditorView {
                title: "Confirm password"@,
                text: Seq::empty(),
                cursor: 0,
                focused: false,
                secret: true,
                error: None,
            }),
            r@.group_input == (LineEditorView {
                title: "Add group"@,
                text: Seq::empty(),
                cursor: 0,
                focused: false,
                secret: false,
                error: None,
            }),
            r@.group_list == (StrListView {
                title: "Groups"@,
                items: groups.deep_view(),
                selected: 0,
                focused: false,
            }),
            r@.help == (HelpModalView {
                visible: false,
                title: "Alter User"@,
                content: alter_user_help(),
            }),
            !r@.confirming_delete,
    {
        let mut buttons = WidgetBox::button_menu(alter_menu_labels_vec(false));
        buttons.focus();
        AlterUser {
            selected_user: selected_user_idx,
            buttons,
            name_input: LineEditor::new("New username"),
            pass_input: LineEditor::new("New password").secret(true),
            pass_confirm: LineEditor::new("Confirm password").secret(true),
            group_name_input: LineEditor::new("Add group"),
            group_list: StrList::new("Groups", groups),
            help_modal: HelpModal::new("Alter User", alter_user_help_lines()),
            confirming_delete: false,
        }
    }

    /// The page's help overlay.
    pub fn help_modal(&self) -> (r: &HelpModal)
        ensures
            r@ == self@.help,
    {
        &self.help_modal
    }

    /// The part of the page to draw (see `drawn_part`); when no part has focus, the menu
    /// takes it, as drawing the page does.
    pub fn part_to_render(&mut self) -> (r: AlterPart)
        ensures
            r == drawn_part(old(self)@),
            final(self)@ == if drawn_part(old(self)@) == AlterPart::MainMenu {
                AlterUserView { buttons: menu_focus(old(self)@.buttons, true), ..old(self)@ }
            } else {
                old(self)@
            },
    {
        if self.buttons.is_focused() {
            AlterPart::MainMenu
        } else if self.name_input.is_focused() {
            AlterPart::NameChange
        } else if self.pass_input.is_focused() || self.pass_confirm.is_focused() {
            AlterPart::PassChange
        } else if self.group_name_input.is_focused() || self.group_list.is_focused() {
            AlterPart::EditGroups
        } else {
            self.buttons.focus();
            AlterPart::MainMenu
        }
    }

    /// The help screen of the page: its title and lines.
    pub fn get_help_content(&self) -> (r: (String, Vec<Vec<Span>>))
        ensures
            r.0@ == "Alter User"@,
            r.1.deep_view() == alter_user_help(),
    {
        (String::from_str("Alter User"), alter_user_help_lines())
    }

    /// The hint drawn beside the group editor.
    pub fn group_editor_hint() -> (r: Vec<Vec<Span>>)
        ensures
            r.deep_view() == group_editor_hint(),
    {
        group_editor_hint_lines()
    }

    /// Whether a deletion waits for confirmation.
    pub fn confirming_delete(&self) -> (r: bool)
        ensures
            r == self@.confirming_delete,
    {
        self.confirming_delete
    }

    /// Handles key `k` on the main menu (see `main_menu_step`).
    pub fn handle_input_main_menu(&mut self, users: &mut Vec<User>, k: Key) -> (r: Signal)
        ensures
            (final(self)@, final(users).deep_view(), r@) == main_menu_step(
                old(self)@,
                old(users).deep_view(),
                k,
            ),
    {
        if self.confirming_delete && k != Key::Enter {
            self.confirming_delete = false;
            self.buttons.set_children_inplace(alter_menu_labels_vec(false));
        }
        if key_is_down(k) {
            if !self.buttons.next_child() {
                self.buttons.first_child();
            }
            Signal::Wait
        } else if key_is_up(k) {
            if !self.buttons.prev_child() {
                self.buttons.last_child();
            }
            Signal::Wait
        } else if k == Key::Enter {
            match self.buttons.selected_child() {
                Some(0) => {
                    self.buttons.unfocus();
                    self.name_input.focus();
                    Signal::Wait
                },
                Some(1) => {
                    self.buttons.unfocus();
                    self.pass_input.focus();
                    Signal::Wait
                },
                Some(2) => {
                    self.buttons.unfocus();
                    self.group_name_input.focus();
                    Signal::Wait
                },
                Some(3) => {
                    let existing = home_manager_of(users, self.selected_user);
                    Signal::PushConfigureHomeManager { user_index: self.selected_user, existing }
                },
                Some(4) => {
                    if !self.confirming_delete {
                        self.confirming_delete = true;
                        self.buttons.set_children_inplace(alter_menu_labels_vec(true));
                        Signal::Wait
                    } else {
                        remove_user_at(users, self.selected_user);
                        Signal::Pop
                    }
                },
                _ => Signal::Wait,
            }
        } else if key_is_back(k) {
            Signal::Pop
        } else {
            Signal::Wait
        }
    }

    /// Handles key `k` on the username field (see `name_change_step`).
    pub fn handle_input_name_change(&mut self, users: &mut Vec<User>, k: Key) -> (r: Signal)
        ensures
            (final(self)@, final(users).deep_view(), r@) == name_change_step(
                old(self)@,
                old(users).deep_view(),
                k,
            ),
    {
        if k == Key::Enter {
            if self.name_input.is_empty() {
                self.name_input.error("Username cannot be empty");
                return Signal::Wait;
            }
            let name = self.name_input.value();
            set_username(users, self.selected_user, name);
            self.name_input.unfocus();
            self.buttons.focus();
            Signal::Wait
        } else if key_is_close(k) {
            self.name_input.unfocus();
            self.buttons.focus();
            Signal::Wait
        } else {
            self.name_input.handle_input(k);
            Signal::Wait
        }
    }

    /// Handles key `k` on the password fields (see `pass_change_step`); the users change
    /// only in `complete_password`.
    pub fn handle_input_pass_change(&mut self, k: Key) -> (r: Signal)
        ensures
            (final(self)@, r@) == pass_change_step(old(self)@, k),
    {
        if self.pass_input.is_focused() {
            if k == Key::Tab {
                self.pass_input.unfocus();
                self.pass_confirm.focus();
                Signal::Wait
            } else if k == Key::Enter {
                if self.pass_input.is_empty() {
                    self.pass_input.error("Password cannot be empty");
                    return Signal::Wait;
                }
                self.pass_input.unfocus();
                self.pass_confirm.focus();
                Signal::Wait
            } else if k == Key::Esc {
                self.pass_input.unfocus();
                self.buttons.focus();
                Signal::Wait
            } else {
                self.pass_input.handle_input(k);
                Signal::Wait
            }
        } else if self.pass_confirm.is_focused() {
            if k == Key::Tab {
                self.pass_confirm.unfocus();
                self.pass_input.focus();
                Signal::Wait
            } else if k == Key::Esc {
                self.pass_confirm.unfocus();
                self.buttons.focus();
                Signal::Wait
            } else if k == Key::Enter {
                let pass = self.pass_input.value();
                let confirm = self.pass_confirm.value();
                if pass != confirm {
                    self.pass_confirm.error("Passwords do not match");
                    self.pass_input.clear();
                    self.pass_confirm.clear();
                    return Signal::Wait;
                }
                Signal::HashPassword { password: pass }
            } else {
                self.pass_confirm.handle_input(k);
                Signal::Wait
            }
        } else {
            self.pass_input.focus();
            Signal::Wait
        }
    }

    /// Finishes a password change once the password was hashed: with the hash, gives it
    /// to the user (when it exists) and goes back to the menu; with a failure message,
    /// changes nothing and reports "Failed to hash password: " and the message.
    pub fn complete_password(&mut self, users: &mut Vec<User>, hashed: Result<String, String>) -> (r: Signal)
        ensures
            match hashed {
                Ok(hash) => {
                    &&& final(users).deep_view() == update_user(
                        old(users).deep_view(),
                        old(self)@.selected_user as int,
                        |u: UserView| UserView { password_hash: hash@, ..u },
                    )
                    &&& final(self)@ == (AlterUserView {
                        confirm: editor_focus(old(self)@.confirm, false),
                        buttons: menu_focus(old(self)@.buttons, true),
                        ..old(self)@
                    })
                    &&& r@ is Wait
                },
                Err(msg) => {
                    &&& final(users).deep_view() == old(users).deep_view()
                    &&& final(self)@ == old(self)@
                    &&& r@ == SignalView::Error("Failed to hash password: "@ + msg@)
                },
            },
    {
        match hashed {
            Ok(hash) => {
                set_password_hash(users, self.selected_user, hash);
                self.pass_confirm.unfocus();
                self.buttons.focus();
                Signal::Wait
            },
            Err(msg) => {
                let text = String::from_str("Failed to hash password: ").concat(msg.as_str());
                Signal::Error(text)
            },
        }
    }

    /// Handles key `k` on the group editor (see `edit_groups_step`).
    pub fn handle_input_edit_groups(&mut self, users: &mut Vec<User>, k: Key) -> (r: Signal)
        requires
            !group_add_out_of_range(old(self)@, old(users).deep_view(), k),
        ensures
            (final(self)@, final(users).deep_view(), r@) == edit_groups_step(
                old(self)@,
                old(users).deep_view(),
                k,
            ),
    {
        let ghost page0 = self@;
        let ghost users0 = users.deep_view();
        if self.group_name_input.is_focused() {
            if k == Key::Enter {
                if self.group_name_input.is_empty() {
                    self.group_name_input.error("Group name cannot be empty");
                    return Signal::Wait;
                }
                let group = self.group_name_input.value();
                if self.selected_user < users.len() {
                    if !add_group_at(users, self.selected_user, group) {
                        self.group_name_input.error("User already in group");
                        return Signal::Wait;
                    }
                }
                self.group_name_input.clear();
                let groups = groups_of(users, self.selected_user);
                assert(users@.len() == users.deep_view().len());
                self.group_list.set_items(groups);
                Signal::Wait
            } else if k == Key::Tab {
                if !self.group_list.is_empty() {
                    self.group_name_input.unfocus();
                    self.group_list.focus();
                }
                Signal::Wait
            } else if k == Key::Esc {
                self.group_name_input.unfocus();
                self.buttons.focus();
                Signal::Wait
            } else {
                self.group_name_input.handle_input(k);
                Signal::Wait
            }
        } else if self.group_list.is_focused() {
            if key_is_down(k) {
                self.group_list.next_item_wrapping();
                Signal::Wait
            } else if key_is_up(k) {
                self.group_list.previous_item_wrapping();
                Signal::Wait
            } else if k == Key::Enter {
                match self.group_list.selected_item() {
                    Some(group) => {
                        let ghost page_before = self@;
                        if self.selected_user < users.len() {
                            remove_group_at(users, self.selected_user, &group);
                            let groups = groups_of(users, self.selected_user);
                            assert(users@.len() == users.deep_view().len());
                            self.group_list.set_items(groups);
                            assert(self@.group_list == list_with_items(
                                page_before.group_list,
                                users.deep_view()[page_before.selected_user as int].groups,
                            ));
                        }
                    },
                    None => {},
                }
                assert(self@ == edit_groups_enter_list(page0, users0).0);
                if self.group_list.is_empty() {
                    self.group_list.unfocus();
                    self.group_name_input.focus();
                }
                Signal::Wait
            } else if k == Key::Tab {
                self.group_list.unfocus();
                self.group_name_input.focus();
                Signal::Wait
            } else if key_is_close(k) {
                self.group_list.unfocus();
                self.buttons.focus();
                Signal::Wait
            } else {
                Signal::Wait
            }
        } else {
            self.group_name_input.focus();
            Signal::Wait
        }
    }

    /// Handles key `k` with `users` the accounts (see `alter_step`).
    pub fn handle_input(&mut self, users: &mut Vec<User>, k: Key) -> (r: Signal)
        requires
            !alter_out_of_range(old(self)@, old(users).deep_view(), k),
        ensures
            (final(self)@, final(users).deep_view(), r@) == alter_step(
                old(self)@,
                old(users).deep_view(),
                k,
            ),
    {
        if key_is_char(k, '?') {
            self.help_modal.toggle();
            return Signal::Wait;
        }
        if key_is_close(k) && self.help_modal.is_visible() {
            self.help_modal.close();
            return Signal::Wait;
        }
        if self.help_modal.is_visible() {
            return Signal::Wait;
        }
        if self.buttons.is_focused() {
            self.handle_input_main_menu(users, k)
        } else if self.name_input.is_focused() {
            self.handle_input_name_change(users, k)
        } else if self.pass_input.is_focused() || self.pass_confirm.is_focused() {
            self.handle_input_pass_change(k)
        } else if self.group_name_input.is_focused() || self.group_list.is_focused() {
            self.handle_input_edit_groups(users, k)
        } else {
            self.buttons.focus();
            Signal::Wait
        }
    }
}

} // verus!
