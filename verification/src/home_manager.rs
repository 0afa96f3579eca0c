use vstd::prelude::*;
use crate::keys::{is_close, is_down, is_up, key_is_close, key_is_down, key_is_up, Key, Signal, SignalView};
use crate::help::{home_manager_question, home_manager_question_lines, Span};
use crate::text::copy_strings;
use crate::picker::{picker_after_key, picker_initial, PackagePicker, PackagePickerView};
use crate::user::{
    enable_home_manager, set_home_manager, set_home_manager_packages, update_user, HomeManagerCfg,
    User, UserView,
};
use crate::widgets::{
    menu_down_wrapping, menu_focus, menu_relabelled, menu_selected, menu_up_wrapping, WidgetBox,
    WidgetBoxView,
};

verus! {

/// The page that sets up home manager for one user: first a yes/no question, then a menu
/// to pick the user's packages or to turn home manager off.
#[derive(Debug)]
pub struct ConfigureHomeManager {
    pub confirmed: bool,
    pub picking_pkgs: bool,
    pub confirm_buttons: WidgetBox,
    pub configuration_options: WidgetBox,
    pub package_picker: PackagePicker,
    pub selected_user: usize,
    pub confirming_disable: bool,
}

/// What a `ConfigureHomeManager` page is.
pub struct ConfigureHomeManagerView {
    pub confirmed: bool,
    pub picking_pkgs: bool,
    pub confirm_buttons: WidgetBoxView,
    pub options: WidgetBoxView,
    pub picker: PackagePickerView,
    pub selected_user: nat,
    pub confirming_disable: bool,
}

impl View for ConfigureHomeManager {
    type V = ConfigureHomeManagerView;

    open spec fn view(&self) -> ConfigureHomeManagerView {
        ConfigureHomeManagerView {
            confirmed: self.confirmed,
            picking_pkgs: self.picking_pkgs,
            confirm_buttons: self.confirm_buttons@,
            options: self.configuration_options@,
            picker: self.package_picker@,
            selected_user: self.selected_user as nat,
            confirming_disable: self.confirming_disable,
        }
    }
}

/// The labels of the yes/no question.
pub open spec fn confirm_labels() -> Seq<Seq<char>> {
    seq!["Yes"@, "No"@]
}

/// The labels of the menu; the second one reads "Really?" while turning home manager off
/// waits for confirmation.
pub open spec fn option_labels(confirming_disable: bool) -> Seq<Seq<char>> {
    seq![
        "Configure User Packages"@,
        if confirming_disable {
            "Really?"@
        } else {
            "Disable Home Manager"@
        },
    ]
}

/// The user at `index` (when it exists) with home manager turned on, with no packages,
/// unless it was on already.
pub open spec fn hm_enabled(users: Seq<UserView>, index: int) -> Seq<UserView> {
    update_user(
        users,
        index,
        |u: UserView|
            if u.home_manager is None {
                UserView { home_manager: Some(Seq::empty()), ..u }
            } else {
                u
            },
    )
}

/// The user at `index` (when it exists) with home manager turned off.
pub open spec fn hm_disabled(users: Seq<UserView>, index: int) -> Seq<UserView> {
    update_user(users, index, |u: UserView| UserView { home_manager: None, ..u })
}

/// The user at `index` (when it exists and has home manager on) with `packages` as its
/// home-manager packages.
pub open spec fn hm_packages_set(
    users: Seq<UserView>,
    index: int,
    packages: Seq<Seq<char>>,
) -> Seq<UserView> {
    update_user(
        users,
        index,
        |u: UserView|
            if u.home_manager is Some {
                UserView { home_manager: Some(packages), ..u }
            } else {
                u
            },
    )
}

/// The home-manager page after key `k`, with `users` the accounts, and what it asks for.
///
/// Before the question is answered, Down/'j' and Up/'k' move round "Yes"/"No"; Enter on
/// "Yes" turns home manager on for the user (keeping a configuration it already has) and
/// shows the menu; Enter on "No" turns it off and leaves the page. While picking
/// packages, Esc/'q' with the search bar unfocused stores the chosen packages as the
/// user's (when home manager is on) and goes back to the menu; other keys go to the
/// picker. On the menu, any key but Enter first withdraws a pending "Really?"; Down/Up
/// move round the menu; Esc/'q' leaves the page; Enter on "Configure User Packages"
/// opens the picker, and on "Disable Home Manager" asks for confirmation the first time
/// and the second time turns home manager off and leaves the page.
pub open spec fn hm_step(h: ConfigureHomeManagerView, users: Seq<UserView>, k: Key) -> (
    ConfigureHomeManagerView,
    Seq<UserView>,
    SignalView,
) {
    let sel = h.selected_user as int;
    if !h.confirmed {
        if is_down(k) {
            (
                ConfigureHomeManagerView { confirm_buttons: menu_down_wrapping(h.confirm_buttons), ..h },
                users,
                SignalView::Wait,
            )
        } else if is_up(k) {
            (
                ConfigureHomeManagerView { confirm_buttons: menu_up_wrapping(h.confirm_buttons), ..h },
                users,
                SignalView::Wait,
            )
        } else if k == Key::Enter {
            let choice = menu_selected(h.confirm_buttons);
            if choice == Some(0nat) {
                (
                    ConfigureHomeManagerView {
                        confirmed: true,
                        options: menu_focus(h.options, true),
                        ..h
                    },
                    hm_enabled(users, sel),
                    SignalView::Wait,
                )
            } else if choice == Some(1nat) {
                (h, hm_disabled(users, sel), SignalView::Pop)
            } else {
                (h, users, SignalView::Wait)
            }
        } else {
            (h, users, SignalView::Wait)
        }
    } else if h.picking_pkgs {
        if is_close(k) && !h.picker.search.focused {
            (
                ConfigureHomeManagerView { picking_pkgs: false, ..h },
                hm_packages_set(users, sel, h.picker.selected),
                SignalView::Wait,
            )
        } else {
            (
                ConfigureHomeManagerView { picker: picker_after_key(h.picker, k), ..h },
                users,
                SignalView::Wait,
            )
        }
    } else {
        let h1 = if h.confirming_disable && k != Key::Enter {
            ConfigureHomeManagerView {
                confirming_disable: false,
                options: menu_relabelled(h.options, option_labels(false)),
                ..h
            }
        } else {
            h
        };
        if is_down(k) {
            (ConfigureHomeManagerView { options: menu_down_wrapping(h1.options), ..h1 }, users, SignalView::Wait)
        } else if is_up(k) {
            (ConfigureHomeManagerView { options: menu_up_wrapping(h1.options), ..h1 }, users, SignalView::Wait)
        } else if is_close(k) {
            (h1, users, SignalView::Pop)
        } else if k == Key::Enter {
            let choice = menu_selected(h1.options);
            if choice == Some(0nat) {
                (ConfigureHomeManagerView { picking_pkgs: true, ..h1 }, users, SignalView::Wait)
            } else if choice == Some(1nat) {
                if !h1.confirming_disable {
                    (
                        ConfigureHomeManagerView {
                            confirming_disable: true,
                            options: menu_relabelled(h1.options, option_labels(true)),
                            ..h1
                        },
                        users,
                        SignalView::Wait,
                    )
                } else {
                    (h1, hm_disabled(users, sel), SignalView::Pop)
                }
            } else {
                (h1, users, SignalView::Wait)
            }
        } else {
            (h1, users, SignalView::Wait)
        }
    }
}

/// The home-manager page never adds or removes a user and touches no user but its own.
pub proof fn lemma_hm_touches_only_selected(h: ConfigureHomeManagerView, users: Seq<UserView>, k: Key)
    ensures
        hm_step(h, users, k).1.len() == users.len(),
        forall|j: int|
            0 <= j < users.len() && j != h.selected_user ==> #[trigger] hm_step(h, users, k).1[j]
                == users[j],
        forall|j: int|
            0 <= j < users.len() ==> (#[trigger] hm_step(h, users, k).1[j]).username == users[j].username
                && hm_step(h, users, k).1[j].password_hash == users[j].password_hash
                && hm_step(h, users, k).1[j].groups == users[j].groups,
{
}

/// Once the question is answered, home manager is turned off only on confirmation: while
/// no "Really?" is pending, a key never turns it on or off for the user.
pub proof fn lemma_hm_disable_needs_confirmation(
    h: ConfigureHomeManagerView,
    users: Seq<UserView>,
    k: Key,
)
    requires
        h.confirmed,
        !h.confirming_disable,
        h.selected_user < users.len(),
    ensures
        (hm_step(h, users, k).1[h.selected_user as int].home_manager is Some) == (
        users[h.selected_user as int].home_manager is Some),
{
}

/// Answering "Yes" keeps a configuration the user already has.
pub proof fn lemma_hm_yes_keeps_existing(h: ConfigureHomeManagerView, users: Seq<UserView>)
    requires
        !h.confirmed,
        menu_selected(h.confirm_buttons) == Some(0nat),
        h.selected_user < users.len(),
        users[h.selected_user as int].home_manager is Some,
    ensures
        hm_step(h, users, Key::Enter).1 == users,
{
    assert(hm_step(h, users, Key::Enter).1 =~= users);
}

/// Closing the package picker stores exactly the packages chosen in it: with the search
/// bar unfocused, Esc or 'q' while picking gives the page's user (when it exists and has
/// home manager on) the picker's chosen packages, all of them and in order, and goes back
/// to the menu; every other part of every user stays as it was.
pub proof fn lemma_hm_close_stores_choice(h: ConfigureHomeManagerView, users: Seq<UserView>, k: Key)
    requires
        h.confirmed,
        h.picking_pkgs,
        is_close(k),
        !h.picker.search.focused,
    ensures
        !hm_step(h, users, k).0.picking_pkgs,
        hm_step(h, users, k).2 is Wait,
        hm_step(h, users, k).1.len() == users.len(),
        h.selected_user < users.len() && users[h.selected_user as int].home_manager is Some
            ==> hm_step(h, users, k).1[h.selected_user as int].home_manager == Some(
            h.picker.selected,
        ),
        forall|j: int|
            0 <= j < users.len() ==> {
                &&& (#[trigger] hm_step(h, users, k).1[j]).username == users[j].username
                &&& hm_step(h, users, k).1[j].password_hash == users[j].password_hash
                &&& hm_step(h, users, k).1[j].groups == users[j].groups
                &&& (hm_step(h, users, k).1[j].home_manager is Some) == (users[j].home_manager is Some)
                &&& j != h.selected_user ==> hm_step(h, users, k).1[j] == users[j]
            },
{
}

/// Down/'j' and Up/'k' move round the yes/no question before it is answered, and round
/// the menu after it (with no "Really?" pending): one button down or up, going round at
/// the ends; no user changes.
pub proof fn lemma_hm_menu_moves(h: ConfigureHomeManagerView, users: Seq<UserView>, k: Key)
    requires
        !h.picking_pkgs,
        !h.confirming_disable,
        is_up(k) || is_down(k),
        h.confirm_buttons.selected < h.confirm_buttons.labels.len(),
        h.options.selected < h.options.labels.len(),
    ensures
        hm_step(h, users, k).1 == users,
        hm_step(h, users, k).2 is Wait,
        !h.confirmed && is_down(k) ==> hm_step(h, users, k).0.confirm_buttons.selected == (if h.confirm_buttons.selected + 1 < h.confirm_buttons.labels.len() {
            h.confirm_buttons.selected + 1
        } else {
            0
        }),
        !h.confirmed && is_up(k) ==> hm_step(h, users, k).0.confirm_buttons.selected == (if h.confirm_buttons.selected > 0 {
            h.confirm_buttons.selected - 1
        } else {
            h.confirm_buttons.labels.len() - 1
        }),
        h.confirmed && is_down(k) ==> hm_step(h, users, k).0.options.selected == (if h.options.selected + 1 < h.options.labels.len() {
            h.options.selected + 1
        } else {
            0
        }),
        h.confirmed && is_up(k) ==> hm_step(h, users, k).0.options.selected == (if h.options.selected > 0 {
            h.options.selected - 1
        } else {
            h.options.labels.len() - 1
        }),
{
}

/// Answering the question: "Yes" leaves the user with home manager on (a configuration it
/// had is kept, else it gets an empty one) and shows the menu; "No" leaves the user with
/// home manager off and leaves the page.
pub proof fn lemma_hm_answer(h: ConfigureHomeManagerView, users: Seq<UserView>)
    requires
        !h.confirmed,
        h.selected_user < users.len(),
    ensures
        menu_selected(h.confirm_buttons) == Some(0nat) ==> {
            &&& hm_step(h, users, Key::Enter).0.confirmed
            &&& hm_step(h, users, Key::Enter).1[h.selected_user as int].home_manager == (if users[h.selected_user as int].home_manager is Some {
                users[h.selected_user as int].home_manager
            } else {
                Some(Seq::<Seq<char>>::empty())
            })
        },
        menu_selected(h.confirm_buttons) == Some(1nat) ==> {
            &&& hm_step(h, users, Key::Enter).1[h.selected_user as int].home_manager is None
            &&& hm_step(h, users, Key::Enter).2 is Pop
        },
{
}

/// The labels of the yes/no question.
fn confirm_labels_vec() -> (r: Vec<String>)
    ensures
        r.deep_view() == confirm_labels(),
{
    let mut r: Vec<String> = Vec::new();
    r.push(String::from_str("Yes"));
    r.push(String::from_str("No"));
    assert(r.deep_view() =~= confirm_labels());
    r
}

/// The labels of the menu.
fn option_labels_vec(confirming_disable: bool) -> (r: Vec<String>)
    ensures
        r.deep_view() == option_labels(confirming_disable),
{
    let mut r: Vec<String> = Vec::new();
    r.push(String::from_str("Configure User Packages"));
    if confirming_disable {
        r.push(String::from_str("Really?"));
    } else {
        r.push(String::from_str("Disable Home Manager"));
    }
    assert(r.deep_view() =~= option_labels(confirming_disable));
    r
}

impl ConfigureHomeManager {
    /// The home-manager page for the user at `selected_user`, offering `available_pkgs`.
    /// With a configuration already there the question counts as answered, the menu has
    /// focus and the picker starts from the configured packages; without one the yes/no
    /// question has focus and the picker starts empty.
    pub fn new(
        selected_user: usize,
        existing_config: Option<HomeManagerCfg>,
        available_pkgs: Vec<String>,
    ) -> (r: ConfigureHomeManager)
        ensures
            r@.selected_user == selected_user,
            r@.confirmed == existing_config is Some,
            !r@.picking_pkgs,
            !r@.confirming_disable,
            r@.confirm_buttons == (WidgetBoxView {
                labels: confirm_labels(),
                selected: 0,
                focused: existing_config is None,
            }),
            r@.options == (WidgetBoxView {
                labels: option_labels(false),
                selected: 0,
                focused: existing_config is Some,
            }),
            r@.picker == picker_initial(
                "Selected User Packages"@,
                "Available Packages"@,
                match existing_config {
                    Some(cfg) => cfg@,
                    None => Seq::<Seq<char>>::empty(),
                },
                available_pkgs.deep_view(),
            ),
    {
        let mut confirm_buttons = WidgetBox::button_menu(confirm_labels_vec());
        let mut configuration_options = WidgetBox::button_menu(option_labels_vec(false));
        match existing_config {
            Some(cfg) => {
                configuration_options.focus();
                let package_picker = PackagePicker::new(
                    "Selected User Packages",
                    "Available Packages",
                    cfg.packages,
                    available_pkgs,
                );
                ConfigureHomeManager {
                    confirmed: true,
                    picking_pkgs: false,
                    confirm_buttons,
                    configuration_options,
                    package_picker,
                    selected_user,
                    confirming_disable: false,
                }
            },
            None => {
                confirm_buttons.focus();
                let none: Vec<String> = Vec::new();
                assert(none.deep_view() =~= Seq::<Seq<char>>::empty());
                let package_picker = PackagePicker::new(
                    "Selected User Packages",
                    "Available Packages",
                    none,
                    available_pkgs,
                );
                ConfigureHomeManager {
                    confirmed: false,
                    picking_pkgs: false,
                    confirm_buttons,
                    configuration_options,
                    package_picker,
                    selected_user,
                    confirming_disable: false,
                }
            },
        }
    }

    /// The packages of the page's user to list under the menu: the user's home-manager
    /// packages (none when home manager is off), or nothing when the user does not exist.
    pub fn user_packages(&self, users: &Vec<User>) -> (r: Option<Vec<String>>)
        ensures
            match r {
                None => self@.selected_user >= users@.len(),
                Some(pkgs) => self@.selected_user < users@.len() && pkgs.deep_view() == match users.deep_view()[self@.selected_user as int].home_manager {
                    Some(p) => p,
                    None => Seq::<Seq<char>>::empty(),
                },
            },
    {
        if self.selected_user < users.len() {
            match &users[self.selected_user].home_manager_cfg {
                Some(cfg) => Some(copy_strings(&cfg.packages)),
                None => {
                    let none: Vec<String> = Vec::new();
                    assert(none.deep_view() =~= Seq::<Seq<char>>::empty());
                    Some(none)
                },
            }
        } else {
            None
        }
    }

    /// The question drawn before it is answered.
    pub fn question() -> (r: Vec<Vec<Span>>)
        ensures
            r.deep_view() == home_manager_question(),
    {
        home_manager_question_lines()
    }

    /// Handles key `k` with `users` the accounts (see `hm_step`).
    pub fn handle_input(&mut self, users: &mut Vec<User>, k: Key) -> (r: Signal)
        ensures
            (final(self)@, final(users).deep_view(), r@) == hm_step(
                old(self)@,
                old(users).deep_view(),
                k,
            ),
    {
        if !self.confirmed {
            if key_is_down(k) {
                if !self.confirm_buttons.next_child() {
                    self.confirm_buttons.first_child();
                }
                Signal::Wait
            } else if key_is_up(k) {
                if !self.confirm_buttons.prev_child() {
                    self.confirm_buttons.last_child();
                }
                Signal::Wait
            } else if k == Key::Enter {
                match self.confirm_buttons.selected_child() {
                    Some(0) => {
                        self.confirmed = true;
                        self.configuration_options.focus();
                        enable_home_manager(users, self.selected_user);
                        Signal::Wait
                    },
                    Some(1) => {
                        set_home_manager(users, self.selected_user, None);
                        Signal::Pop
                    },
                    _ => Signal::Wait,
                }
            } else {
                Signal::Wait
            }
        } else if self.picking_pkgs {
            if key_is_close(k) && !self.package_picker.search_bar().is_focused() {
                let selected = self.package_picker.get_selected_packages();
                set_home_manager_packages(users, self.selected_user, selected);
                self.picking_pkgs = false;
                Signal::Wait
            } else {
                self.package_picker.handle_input(k)
            }
        } else {
            if self.confirming_disable && k != Key::Enter {
                self.confirming_disable = false;
                self.configuration_options.set_children_inplace(option_labels_vec(false));
            }
            if key_is_down(k) {
                if !self.configuration_options.next_child() {
                    self.configuration_options.first_child();
                }
                Signal::Wait
            } else if key_is_up(k) {
                if !self.configuration_options.prev_child() {
                    self.configuration_options.last_child();
                }
                Signal::Wait
            } else if key_is_close(k) {
                Signal::Pop
            } else if k == Key::Enter {
                match self.configuration_options.selected_child() {
                    Some(0) => {
                        self.picking_pkgs = true;
                        Signal::Wait
                    },
                    Some(1) => {
                        if !self.confirming_disable {
                            self.confirming_disable = true;
                            self.configuration_options.set_children_inplace(option_labels_vec(true));
                            Signal::Wait
                        } else {
                            set_home_manager(users, self.selected_user, None);
                            Signal::Pop
                        }
                    },
                    _ => Signal::Wait,
                }
            } else {
                Signal::Wait
            }
        }
    }
}

} // verus!
