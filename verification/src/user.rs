use vstd::prelude::*;
use crate::text::{copy_strings, joined, join_strings, strings_contain};

verus! {

/// A user's home-manager configuration: the packages installed for that user.
#[derive(Debug, Clone)]
pub struct HomeManagerCfg {
    pub packages: Vec<String>,
}

/// A user account of the system being configured.
#[derive(Debug, Clone)]
pub struct User {
    pub username: String,
    pub password_hash: String,
    pub groups: Vec<String>,
    pub home_manager_cfg: Option<HomeManagerCfg>,
}

/// What a `User` is: its texts, and for home manager the package list when it is enabled.
pub struct UserView {
    pub username: Seq<char>,
    pub password_hash: Seq<char>,
    pub groups: Seq<Seq<char>>,
    pub home_manager: Option<Seq<Seq<char>>>,
}

impl View for HomeManagerCfg {
    type V = Seq<Seq<char>>;

    open spec fn view(&self) -> Seq<Seq<char>> {
        self.packages.deep_view()
    }
}

impl DeepView for HomeManagerCfg {
    type V = Seq<Seq<char>>;

    open spec fn deep_view(&self) -> Seq<Seq<char>> {
        self.view()
    }
}

impl View for User {
    type V = UserView;

    open spec fn view(&self) -> UserView {
        UserView {
            username: self.username@,
            password_hash: self.password_hash@,
            groups: self.groups.deep_view(),
            home_manager: match &self.home_manager_cfg {
                Some(cfg) => Some(cfg@),
                None => None,
            },
        }
    }
}

impl DeepView for User {
    type V = UserView;

    open spec fn deep_view(&self) -> UserView {
        self.view()
    }
}

/// The cell that shows a user's groups: "<none>" for no group, else the groups joined by ", ".
pub open spec fn groups_cell(groups: Seq<Seq<char>>) -> Seq<char> {
    if groups.len() == 0 {
        "<none>"@
    } else {
        joined(groups, ", "@)
    }
}

/// The cell that shows whether a user has home manager: "yes" or "no".
pub open spec fn home_manager_cell(u: UserView) -> Seq<char> {
    if u.home_manager is Some {
        "yes"@
    } else {
        "no"@
    }
}

/// The row that lists a user in a table: username, groups, home manager.
pub open spec fn table_row(u: UserView) -> Seq<Seq<char>> {
    seq![u.username, groups_cell(u.groups), home_manager_cell(u)]
}

/// A user's groups after asking to add `group`: unchanged when already there, else with it last.
pub open spec fn groups_with(groups: Seq<Seq<char>>, group: Seq<char>) -> Seq<Seq<char>> {
    if groups.contains(group) {
        groups
    } else {
        groups.push(group)
    }
}

/// A user's groups with every occurrence of `group` taken out, the others kept in order.
pub open spec fn groups_without(groups: Seq<Seq<char>>, group: Seq<char>) -> Seq<Seq<char>> {
    groups.filter(other_than(group))
}

/// The test "is not `x`".
pub open spec fn other_than(x: Seq<char>) -> spec_fn(Seq<char>) -> bool {
    |g: Seq<char>| g != x
}

/// The users with the one at `index`, if there is one, replaced by `f` of it.
pub open spec fn update_user(
    users: Seq<UserView>,
    index: int,
    f: spec_fn(UserView) -> UserView,
) -> Seq<UserView> {
    if 0 <= index < users.len() {
        users.update(index, f(users[index]))
    } else {
        users
    }
}

impl HomeManagerCfg {
    /// An empty configuration: home manager on, no packages.
    pub fn empty() -> (r: HomeManagerCfg)
        ensures
            r@ == Seq::<Seq<char>>::empty(),
    {
        let r = HomeManagerCfg { packages: Vec::new() };
        assert(r@ =~= Seq::<Seq<char>>::empty());
        r
    }

    /// A copy of this configuration.
    pub fn duplicate(&self) -> (r: HomeManagerCfg)
        ensures
            r@ == self@,
    {
        HomeManagerCfg { packages: copy_strings(&self.packages) }
    }
}

impl User {
    /// A new user with the given name and password hash, no groups and no home manager.
    pub fn new(username: String, password_hash: String) -> (r: User)
        ensures
            r@ == (UserView {
                username: username@,
                password_hash: password_hash@,
                groups: Seq::empty(),
                home_manager: None,
            }),
    {
        let r = User { username, password_hash, groups: Vec::new(), home_manager_cfg: None };
        assert(r.groups.deep_view() =~= Seq::<Seq<char>>::empty());
        r
    }

    /// A copy of this user.
    pub fn duplicate(&self) -> (r: User)
        ensures
            r@ == self@,
    {
        let home_manager_cfg = match &self.home_manager_cfg {
            Some(cfg) => Some(cfg.duplicate()),
            None => None,
        };
        User {
            username: self.username.clone(),
            password_hash: self.password_hash.clone(),
            groups: copy_strings(&self.groups),
            home_manager_cfg,
        }
    }

    /// The row that lists this user in the users table: the username, the groups joined
    /// by ", " (or "<none>"), and "yes" or "no" for home manager.
    pub fn as_table_row(&self) -> (r: Vec<String>)
        ensures
            r.deep_view() == table_row(self@),
    {
        let groups = if self.groups.len() == 0 {
            String::from_str("<none>")
        } else {
            join_strings(&self.groups, ", ")
        };
        let use_hm = if self.home_manager_cfg.is_some() {
            String::from_str("yes")
        } else {
            String::from_str("no")
        };
        let mut r: Vec<String> = Vec::new();
        r.push(self.username.clone());
        r.push(groups);
        r.push(use_hm);
        assert(r.deep_view() =~= table_row(self@));
        r
    }

    /// Adds `group` to this user's groups unless it is already there; says whether it added.
    pub fn add_group(&mut self, group: String) -> (added: bool)
        ensures
            added == !old(self)@.groups.contains(group@),
            final(self)@ == (UserView {
                groups: groups_with(old(self)@.groups, group@),
                ..old(self)@
            }),
    {
        if strings_contain(&self.groups, &group) {
            false
        } else {
            let ghost before = self.groups.deep_view();
            self.groups.push(group);
            assert(self.groups.deep_view() =~= before.push(group@));
            true
        }
    }

    /// Takes every occurrence of `group` out of this user's groups.
    pub fn remove_group(&mut self, group: &String)
        ensures
            final(self)@ == (UserView {
                groups: groups_without(old(self)@.groups, group@),
                ..old(self)@
            }),
    {
        let ghost pred = other_than(group@);
        let ghost old_groups = self.groups.deep_view();
        let mut kept: Vec<String> = Vec::new();
        let mut i: usize = 0;
        while i < self.groups.len()
            invariant
                i <= self.groups.len(),
                self.groups.deep_view() == old_groups,
                pred == other_than(group@),
                kept.deep_view() == old_groups.subrange(0, i as int).filter(pred),
            decreases self.groups.len() - i,
        {
            let ghost prefix = old_groups.subrange(0, i as int);
            assert(old_groups.subrange(0, i + 1) =~= prefix.push(old_groups[i as int]));
            assert(old_groups.subrange(0, i + 1).drop_last() =~= prefix);
            assert(old_groups.subrange(0, i + 1).filter(pred) == (if pred(old_groups[i as int]) {
                prefix.filter(pred).push(old_groups[i as int])
            } else {
                prefix.filter(pred)
            })) by {
                reveal_with_fuel(Seq::filter, 1);
            }
            let same = self.groups[i] == *group;
            assert(old_groups[i as int] == self.groups[i as int]@);
            assert(same == (self.groups[i as int]@ == group@));
            assert(same == !pred(old_groups[i as int]));
            if !same {
                let item = self.groups[i].clone();
                let ghost before = kept.deep_view();
                kept.push(item);
                assert(kept.deep_view() =~= before.push(item@));
            }
            i = i + 1;
        }
        assert(old_groups.subrange(0, old_groups.len() as int) =~= old_groups);
        self.groups = kept;
    }
}

/// The rows that list `users` in a table, one per user, in order.
pub fn user_rows(users: &Vec<User>) -> (r: Vec<Vec<String>>)
    ensures
        r.deep_view() == users.deep_view().map_values(|u: UserView| table_row(u)),
{
    let mut r: Vec<Vec<String>> = Vec::new();
    let mut i: usize = 0;
    while i < users.len()
        invariant
            i <= users.len(),
            r.deep_view() == users.deep_view().subrange(0, i as int).map_values(
                |u: UserView| table_row(u),
            ),
        decreases users.len() - i,
    {
        let row = users[i].as_table_row();
        let ghost before = r.deep_view();
        r.push(row);
        assert(r.deep_view() =~= before.push(row.deep_view()));
        assert(users.deep_view().subrange(0, i + 1).map_values(|u: UserView| table_row(u))
            =~= before.push(table_row(users.deep_view()[i as int])));
        i = i + 1;
    }
    assert(users.deep_view().subrange(0, users.len() as int) =~= users.deep_view());
    r
}

/// Gives the user at `index`, if there is one, the username `name`.
pub fn set_username(users: &mut Vec<User>, index: usize, name: String)
    ensures
        final(users).deep_view() == update_user(
            old(users).deep_view(),
            index as int,
            |u: UserView| UserView { username: name@, ..u },
        ),
{
    if index < users.len() {
        let ghost before = users.deep_view();
        users[index].username = name;
        assert(users.deep_view() =~= before.update(index as int, UserView { username: name@, ..before[index as int] }));
    }
}

/// Gives the user at `index`, if there is one, the password hash `hash`.
pub fn set_password_hash(users: &mut Vec<User>, index: usize, hash: String)
    ensures
        final(users).deep_view() == update_user(
            old(users).deep_view(),
            index as int,
            |u: UserView| UserView { password_hash: hash@, ..u },
        ),
{
    if index < users.len() {
        let ghost before = users.deep_view();
        users[index].password_hash = hash;
        assert(users.deep_view() =~= before.update(
            index as int,
            UserView { password_hash: hash@, ..before[index as int] },
        ));
    }
}

/// Sets the home-manager configuration of the user at `index`, if there is one.
pub fn set_home_manager(users: &mut Vec<User>, index: usize, cfg: Option<HomeManagerCfg>)
    ensures
        final(users).deep_view() == update_user(
            old(users).deep_view(),
            index as int,
            |u: UserView| UserView { home_manager: cfg.deep_view(), ..u },
        ),
{
    if index < users.len() {
        let ghost before = users.deep_view();
        let ghost hm = cfg.deep_view();
        users[index].home_manager_cfg = cfg;
        assert(users.deep_view() =~= before.update(
            index as int,
            UserView { home_manager: hm, ..before[index as int] },
        ));
    }
}

/// Turns home manager on, with no packages, for the user at `index` when that user
/// exists and has it off; leaves the users as they are otherwise.
pub fn enable_home_manager(users: &mut Vec<User>, index: usize)
    ensures
        final(users).deep_view() == update_user(
            old(users).deep_view(),
            index as int,
            |u: UserView|
                if u.home_manager is None {
                    UserView { home_manager: Some(Seq::empty()), ..u }
                } else {
                    u
                },
        ),
{
    if index < users.len() && users[index].home_manager_cfg.is_none() {
        let ghost before = users.deep_view();
        users[index].home_manager_cfg = Some(HomeManagerCfg::empty());
        assert(users.deep_view() =~= before.update(
            index as int,
            UserView { home_manager: Some(Seq::empty()), ..before[index as int] },
        ));
    } else {
        assert(users.deep_view() =~= update_user(
            users.deep_view(),
            index as int,
            |u: UserView|
                if u.home_manager is None {
                    UserView { home_manager: Some(Seq::empty()), ..u }
                } else {
                    u
                },
        ));
    }
}

/// Sets the home-manager packages of the user at `index` to `packages` when that user
/// exists and has home manager on; leaves the users as they are otherwise.
pub fn set_home_manager_packages(users: &mut Vec<User>, index: usize, packages: Vec<String>)
    ensures
        final(users).deep_view() == update_user(
            old(users).deep_view(),
            index as int,
            |u: UserView|
                if u.home_manager is Some {
                    UserView { home_manager: Some(packages.deep_view()), ..u }
                } else {
                    u
                },
        ),
{
    let ghost f = |u: UserView|
        if u.home_manager is Some {
            UserView { home_manager: Some(packages.deep_view()), ..u }
        } else {
            u
        };
    if index < users.len() && users[index].home_manager_cfg.is_some() {
        let ghost before = users.deep_view();
        let ghost pk = packages.deep_view();
        users[index].home_manager_cfg = Some(HomeManagerCfg { packages });
        assert(users.deep_view() =~= before.update(
            index as int,
            UserView { home_manager: Some(pk), ..before[index as int] },
        ));
    } else {
        assert(users.deep_view() =~= update_user(users.deep_view(), index as int, f));
    }
}

/// Adds `group` to the groups of the user at `index` (see `User::add_group`); says
/// whether that user exists and did not have the group yet.
pub fn add_group_at(users: &mut Vec<User>, index: usize, group: String) -> (added: bool)
    ensures
        added == (index < old(users)@.len() && !old(users).deep_view()[index as int].groups.contains(
            group@,
        )),
        final(users).deep_view() == update_user(
            old(users).deep_view(),
            index as int,
            |u: UserView| UserView { groups: groups_with(u.groups, group@), ..u },
        ),
{
    if index < users.len() {
        let ghost before = users.deep_view();
        let ghost g = group@;
        let added = users[index].add_group(group);
        assert(users.deep_view() =~= before.update(
            index as int,
            UserView { groups: groups_with(before[index as int].groups, g), ..before[index as int] },
        ));
        added
    } else {
        false
    }
}

/// Takes every occurrence of `group` out of the groups of the user at `index`, if there
/// is such a user.
pub fn remove_group_at(users: &mut Vec<User>, index: usize, group: &String)
    ensures
        final(users).deep_view() == update_user(
            old(users).deep_view(),
            index as int,
            |u: UserView| UserView { groups: groups_without(u.groups, group@), ..u },
        ),
{
    if index < users.len() {
        let ghost before = users.deep_view();
        users[index].remove_group(group);
        assert(users.deep_view() =~= before.update(
            index as int,
            UserView {
                groups: groups_without(before[index as int].groups, group@),
                ..before[index as int]
            },
        ));
    }
}

/// Removes the user at `index`, if there is one.
pub fn remove_user_at(users: &mut Vec<User>, index: usize)
    ensures
        final(users).deep_view() == if index < old(users)@.len() {
            old(users).deep_view().remove(index as int)
        } else {
            old(users).deep_view()
        },
{
    if index < users.len() {
        let ghost before = users.deep_view();
        users.remove(index);
        assert(users.deep_view() =~= before.remove(index as int));
    }
}

/// A copy of the groups of the user at `index`, or no group when there is no such user.
pub fn groups_of(users: &Vec<User>, index: usize) -> (r: Vec<String>)
    ensures
        r.deep_view() == if index < users@.len() {
            users.deep_view()[index as int].groups
        } else {
            Seq::empty()
        },
{
    if index < users.len() {
        copy_strings(&users[index].groups)
    } else {
        let r: Vec<String> = Vec::new();
        assert(r.deep_view() =~= Seq::<Seq<char>>::empty());
        r
    }
}

/// A copy of the home-manager configuration of the user at `index`, or none when there
/// is no such user.
pub fn home_manager_of(users: &Vec<User>, index: usize) -> (r: Option<HomeManagerCfg>)
    ensures
        r.deep_view() == if index < users@.len() {
            users.deep_view()[index as int].home_manager
        } else {
            None
        },
{
    if index < users.len() {
        match &users[index].home_manager_cfg {
            Some(cfg) => Some(cfg.duplicate()),
            None => None,
        }
    } else {
        None
    }
}

/// Asking to add a group never makes a user's groups repeat: if no group was listed twice
/// before, none is after.
pub proof fn lemma_groups_with_distinct(groups: Seq<Seq<char>>, group: Seq<char>)
    requires
        groups.no_duplicates(),
    ensures
        groups_with(groups, group).no_duplicates(),
        groups_with(groups, group).contains(group),
{
    if !groups.contains(group) {
        let g2 = groups.push(group);
        assert forall|i: int, j: int|
            0 <= i < g2.len() && 0 <= j < g2.len() && i != j implies g2[i] != g2[j] by {
            if i == groups.len() as int {
                assert(g2[j] == groups[j]);
            } else if j == groups.len() as int {
                assert(g2[i] == groups[i]);
            }
        }
        assert(g2[groups.len() as int] == group);
    }
}

/// Removing a group takes it out entirely and keeps the groups free of repeats.
pub proof fn lemma_groups_without(groups: Seq<Seq<char>>, group: Seq<char>)
    ensures
        !groups_without(groups, group).contains(group),
        forall|g: Seq<char>| g != group ==> (groups_without(groups, group).contains(g) <==> groups.contains(g)),
        groups.no_duplicates() ==> groups_without(groups, group).no_duplicates(),
    decreases groups.len(),
{
    reveal_with_fuel(Seq::filter, 1);
    if groups.len() > 0 {
        let rest = groups.drop_last();
        lemma_groups_without(rest, group);
        let kept = groups_without(rest, group);
        let last = groups.last();
        assert(groups_without(groups, group) == if last != group { kept.push(last) } else { kept });
        assert forall|g: Seq<char>| groups.contains(g) <==> (rest.contains(g) || g == last) by {
            if groups.contains(g) {
                let j = choose|j: int| 0 <= j < groups.len() && groups[j] == g;
                if j < groups.len() - 1 {
                    assert(rest[j] == g);
                }
            }
            if rest.contains(g) {
                let j = choose|j: int| 0 <= j < rest.len() && rest[j] == g;
                assert(groups[j] == g);
            }
            if g == last {
                assert(groups[groups.len() - 1] == g);
            }
        }
        if last != group {
            assert forall|g: Seq<char>| kept.push(last).contains(g) <==> (kept.contains(g) || g == last) by {
                if kept.push(last).contains(g) {
                    let j = choose|j: int| 0 <= j < kept.len() + 1 && kept.push(last)[j] == g;
                    if j < kept.len() {
                        assert(kept[j] == g);
                    }
                }
                if kept.contains(g) {
                    let j = choose|j: int| 0 <= j < kept.len() && kept[j] == g;
                    assert(kept.push(last)[j] == g);
                }
                if g == last {
                    assert(kept.push(last)[kept.len() as int] == g);
                }
            }
            if groups.no_duplicates() {
                assert(rest.no_duplicates()) by {
                    assert forall|i: int, j: int|
                        0 <= i < rest.len() && 0 <= j < rest.len() && i != j implies rest[i] != rest[j] by {
                        assert(rest[i] == groups[i]);
                        assert(rest[j] == groups[j]);
                    }
                }
                assert(!rest.contains(last)) by {
                    if rest.contains(last) {
                        let j = choose|j: int| 0 <= j < rest.len() && rest[j] == last;
                        assert(groups[j] == groups[groups.len() - 1]);
                    }
                }
                let k2 = kept.push(last);
                assert forall|i: int, j: int|
                    0 <= i < k2.len() && 0 <= j < k2.len() && i != j implies k2[i] != k2[j] by {
                    if i == kept.len() as int {
                        assert(k2[j] == kept[j]);
                        assert(kept.contains(kept[j]));
                    } else if j == kept.len() as int {
                        assert(k2[i] == kept[i]);
                        assert(kept.contains(kept[i]));
                    }
                }
            }
        } else if groups.no_duplicates() {
            assert(rest.no_duplicates()) by {
                assert forall|i: int, j: int|
                    0 <= i < rest.len() && 0 <= j < rest.len() && i != j implies rest[i] != rest[j] by {
                    assert(rest[i] == groups[i]);
                    assert(rest[j] == groups[j]);
                }
            }
        }
    } else {
        assert(groups_without(groups, group) =~= Seq::<Seq<char>>::empty());
    }
}

/// Adding a group the user did not have and then removing it gives back the groups as
/// they were.
pub proof fn lemma_add_then_remove_group(groups: Seq<Seq<char>>, group: Seq<char>)
    requires
        !groups.contains(group),
    ensures
        groups_without(groups_with(groups, group), group) == groups,
{
    reveal_with_fuel(Seq::filter, 1);
    let g2 = groups.push(group);
    assert(g2.drop_last() =~= groups);
    assert(groups_without(g2, group) == groups_without(groups, group));
    lemma_filter_keeps_all(groups, group);
}

/// Removing a group the user does not have changes nothing.
pub proof fn lemma_filter_keeps_all(groups: Seq<Seq<char>>, group: Seq<char>)
    requires
        !groups.contains(group),
    ensures
        groups_without(groups, group) == groups,
    decreases groups.len(),
{
    reveal_with_fuel(Seq::filter, 1);
    if groups.len() > 0 {
        let rest = groups.drop_last();
        assert(!rest.contains(group)) by {
            if rest.contains(group) {
                let j = choose|j: int| 0 <= j < rest.len() && rest[j] == group;
                assert(groups[j] == group);
            }
        }
        assert(groups.last() != group) by {
            assert(groups[groups.len() - 1] == groups.last());
        }
        lemma_filter_keeps_all(rest, group);
        assert(rest.push(groups.last()) =~= groups);
    } else {
        assert(groups_without(groups, group) =~= groups);
    }
}

} // verus!
