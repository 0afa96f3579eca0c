use vstd::prelude::*;
use crate::keys::{is_down, is_up, key_is_char, key_is_down, key_is_up, Key, Signal};
use crate::text::{chars_contain_run, chars_of, contains_run, copy_strings, strings_contain};
use crate::widgets::{editor_after_key, editor_focus, LineEditor, LineEditorView};

verus! {

/// A picker of packages: the packages chosen so far and the packages that can be chosen,
/// the latter narrowed by the text of a search bar.
#[derive(Debug)]
pub struct PackagePicker {
    selected_title: String,
    available_title: String,
    selected: Vec<String>,
    available: Vec<String>,
    search_bar: LineEditor,
    on_selected: bool,
    available_cursor: usize,
    selected_cursor: usize,
}

/// What a `PackagePicker` is.
pub struct PackagePickerView {
    pub selected_title: Seq<char>,
    pub available_title: Seq<char>,
    pub selected: Seq<Seq<char>>,
    pub available: Seq<Seq<char>>,
    pub search: LineEditorView,
    /// The list of chosen packages, not the list of offered ones, has the cursor.
    pub on_selected: bool,
    pub available_cursor: nat,
    pub selected_cursor: nat,
}

impl View for PackagePicker {
    type V = PackagePickerView;

    closed spec fn view(&self) -> PackagePickerView {
        PackagePickerView {
            selected_title: self.selected_title@,
            available_title: self.available_title@,
            selected: self.selected.deep_view(),
            available: self.available.deep_view(),
            search: self.search_bar@,
            on_selected: self.on_selected,
            available_cursor: self.available_cursor as nat,
            selected_cursor: self.selected_cursor as nat,
        }
    }
}

/// A picker as it opens: titled `selected_title` and `available_title`, with `selected`
/// chosen and `available` offered, an empty and unfocused search bar titled "Search", and
/// the cursor at the top of the offered list.
pub open spec fn picker_initial(
    selected_title: Seq<char>,
    available_title: Seq<char>,
    selected: Seq<Seq<char>>,
    available: Seq<Seq<char>>,
) -> PackagePickerView {
    PackagePickerView {
        selected_title,
        available_title,
        selected,
        available,
        search: LineEditorView {
            title: "Search"@,
            text: Seq::empty(),
            cursor: 0,
            focused: false,
            secret: false,
            error: None,
        },
        on_selected: false,
        available_cursor: 0,
        selected_cursor: 0,
    }
}

/// The test "holds the search text `needle`".
pub open spec fn matches_search(needle: Seq<char>) -> spec_fn(Seq<char>) -> bool {
    |name: Seq<char>| contains_run(name, needle)
}

/// The offered packages that the search text lets through, in order.
pub open spec fn visible_available(p: PackagePickerView) -> Seq<Seq<char>> {
    p.available.filter(matches_search(p.search.text))
}

/// The chosen packages with `name` added last unless it is there already.
pub open spec fn selection_with(selected: Seq<Seq<char>>, name: Seq<char>) -> Seq<Seq<char>> {
    if selected.contains(name) {
        selected
    } else {
        selected.push(name)
    }
}

/// A cursor brought back onto a list of `len` items (0 when the list is empty).
pub open spec fn clamped(cursor: nat, len: nat) -> nat {
    if cursor < len {
        cursor
    } else if len > 0 {
        (len - 1) as nat
    } else {
        0
    }
}

/// Enter on the picker: on the offered list it adds the package under the cursor to the
/// chosen ones (once); on the chosen list it takes the package under the cursor out.
pub open spec fn picker_enter(p: PackagePickerView) -> PackagePickerView {
    if !p.on_selected {
        let visible = visible_available(p);
        if p.available_cursor < visible.len() {
            PackagePickerView {
                selected: selection_with(p.selected, visible[p.available_cursor as int]),
                ..p
            }
        } else {
            p
        }
    } else if p.selected_cursor < p.selected.len() {
        let rest = p.selected.remove(p.selected_cursor as int);
        PackagePickerView {
            selected: rest,
            selected_cursor: clamped(p.selected_cursor, rest.len()),
            ..p
        }
    } else {
        p
    }
}

/// The picker after key `k`. With the search bar focused, Tab, Enter and Esc leave it
/// for the offered list, and other keys edit the search text (the offered list's cursor
/// going back to its top). Otherwise '/' focuses the search bar, Tab goes from the
/// offered list to the chosen list and from there to the search bar, Down/'j' and
/// Up/'k' move the cursor of the current list, and Enter is `picker_enter`.
pub open spec fn picker_after_key(p: PackagePickerView, k: Key) -> PackagePickerView {
    if p.search.focused {
        if k == Key::Tab || k == Key::Enter || k == Key::Esc {
            PackagePickerView {
                search: editor_focus(p.search, false),
                on_selected: false,
                ..p
            }
        } else {
            PackagePickerView {
                search: editor_after_key(p.search, k),
                available_cursor: 0,
                ..p
            }
        }
    } else if k == Key::Char('/') {
        PackagePickerView { search: editor_focus(p.search, true), ..p }
    } else if k == Key::Tab {
        if p.on_selected {
            PackagePickerView { search: editor_focus(p.search, true), on_selected: false, ..p }
        } else {
            PackagePickerView { on_selected: true, ..p }
        }
    } else if is_down(k) {
        if p.on_selected {
            if p.selected_cursor + 1 < p.selected.len() {
                PackagePickerView { selected_cursor: p.selected_cursor + 1, ..p }
            } else {
                p
            }
        } else if p.available_cursor + 1 < visible_available(p).len() {
            PackagePickerView { available_cursor: p.available_cursor + 1, ..p }
        } else {
            p
        }
    } else if is_up(k) {
        if p.on_selected {
            if p.selected_cursor > 0 {
                PackagePickerView { selected_cursor: (p.selected_cursor - 1) as nat, ..p }
            } else {
                p
            }
        } else if p.available_cursor > 0 {
            PackagePickerView { available_cursor: (p.available_cursor - 1) as nat, ..p }
        } else {
            p
        }
    } else if k == Key::Enter {
        picker_enter(p)
    } else {
        p
    }
}

/// The picker keeps its chosen packages free of repeats: if no package is chosen twice
/// before a key, none is after it.
pub proof fn lemma_picker_keeps_selection_distinct(p: PackagePickerView, k: Key)
    requires
        p.selected.no_duplicates(),
    ensures
        picker_after_key(p, k).selected.no_duplicates(),
{
    let q = picker_after_key(p, k);
    if !p.search.focused && k == Key::Enter && p.on_selected && p.selected_cursor
        < p.selected.len() {
        let rest = p.selected.remove(p.selected_cursor as int);
        assert forall|i: int, j: int|
            0 <= i < rest.len() && 0 <= j < rest.len() && i != j implies rest[i] != rest[j] by {
            let ii = if i < p.selected_cursor { i } else { i + 1 };
            let jj = if j < p.selected_cursor { j } else { j + 1 };
            assert(rest[i] == p.selected[ii]);
            assert(rest[j] == p.selected[jj]);
        }
    }
    if !p.search.focused && k == Key::Enter && !p.on_selected {
        let visible = visible_available(p);
        if p.available_cursor < visible.len() {
            let name = visible[p.available_cursor as int];
            if !p.selected.contains(name) {
                let s2 = p.selected.push(name);
                assert forall|i: int, j: int|
                    0 <= i < s2.len() && 0 <= j < s2.len() && i != j implies s2[i] != s2[j] by {
                    if i == p.selected.len() as int {
                        assert(s2[j] == p.selected[j]);
                    } else if j == p.selected.len() as int {
                        assert(s2[i] == p.selected[i]);
                    }
                }
            }
        }
    }
}

/// The search filter persists while packages are added or removed: with the search bar
/// unfocused, any key leaves the search text and the offered packages as they were, so
/// the filter lets the same packages through.
pub proof fn lemma_filter_persists(p: PackagePickerView, k: Key)
    requires
        !p.search.focused,
    ensures
        picker_after_key(p, k).search.text == p.search.text,
        picker_after_key(p, k).available == p.available,
        visible_available(picker_after_key(p, k)) == visible_available(p),
{
}

/// Enter adds or removes a package. On the offered list it makes the package under the
/// cursor a chosen one and loses no chosen package; on the chosen list it takes out the
/// package under the cursor and keeps the others in order.
pub proof fn lemma_picker_enter(p: PackagePickerView)
    requires
        !p.search.focused,
    ensures
        !p.on_selected && p.available_cursor < visible_available(p).len() ==> {
            &&& picker_after_key(p, Key::Enter).selected.contains(
                visible_available(p)[p.available_cursor as int],
            )
            &&& forall|x: Seq<char>|
                p.selected.contains(x) ==> #[trigger] picker_after_key(
                    p,
                    Key::Enter,
                ).selected.contains(x)
        },
        p.on_selected && p.selected_cursor < p.selected.len() ==> picker_after_key(
            p,
            Key::Enter,
        ).selected == p.selected.remove(p.selected_cursor as int),
{
    if !p.on_selected && p.available_cursor < visible_available(p).len() {
        let name = visible_available(p)[p.available_cursor as int];
        let after = picker_after_key(p, Key::Enter).selected;
        assert(after == selection_with(p.selected, name));
        if !p.selected.contains(name) {
            assert(after[p.selected.len() as int] == name);
            assert forall|x: Seq<char>| p.selected.contains(x) implies #[trigger] after.contains(x) by {
                let j = choose|j: int| 0 <= j < p.selected.len() && p.selected[j] == x;
                assert(after[j] == x);
            }
        }
    }
}

/// Up/'k' and Down/'j' move the cursor of the current list by one, stopping at its ends,
/// while the search bar is unfocused; they change neither list, the search text nor which
/// list is current.
pub proof fn lemma_picker_cursor_moves(p: PackagePickerView, k: Key)
    requires
        !p.search.focused,
        is_up(k) || is_down(k),
    ensures
        picker_after_key(p, k).selected == p.selected,
        picker_after_key(p, k).available == p.available,
        picker_after_key(p, k).search == p.search,
        picker_after_key(p, k).on_selected == p.on_selected,
        !p.on_selected ==> picker_after_key(p, k).selected_cursor == p.selected_cursor,
        p.on_selected ==> picker_after_key(p, k).available_cursor == p.available_cursor,
        !p.on_selected && is_up(k) && p.available_cursor > 0 ==> picker_after_key(
            p,
            k,
        ).available_cursor == p.available_cursor - 1,
        !p.on_selected && is_up(k) && p.available_cursor == 0 ==> picker_after_key(
            p,
            k,
        ).available_cursor == 0,
        !p.on_selected && is_down(k) && p.available_cursor + 1 < visible_available(p).len()
            ==> picker_after_key(p, k).available_cursor == p.available_cursor + 1,
        !p.on_selected && is_down(k) && p.available_cursor + 1 >= visible_available(p).len()
            ==> picker_after_key(p, k).available_cursor == p.available_cursor,
        p.on_selected && is_up(k) && p.selected_cursor > 0 ==> picker_after_key(
            p,
            k,
        ).selected_cursor == p.selected_cursor - 1,
        p.on_selected && is_up(k) && p.selected_cursor == 0 ==> picker_after_key(
            p,
            k,
        ).selected_cursor == 0,
        p.on_selected && is_down(k) && p.selected_cursor + 1 < p.selected.len()
            ==> picker_after_key(p, k).selected_cursor == p.selected_cursor + 1,
        p.on_selected && is_down(k) && p.selected_cursor + 1 >= p.selected.len()
            ==> picker_after_key(p, k).selected_cursor == p.selected_cursor,
{
}

impl PackagePicker {
    /// A picker titled `selected_title` and `available_title`, with `selected` chosen and
    /// `available` offered, the cursor on the offered list and the search bar empty.
    pub fn new(
        selected_title: &str,
        available_title: &str,
        selected: Vec<String>,
        available: Vec<String>,
    ) -> (r: PackagePicker)
        ensures
            r@ == picker_initial(
                selected_title@,
                available_title@,
                selected.deep_view(),
                available.deep_view(),
            ),
    {
        PackagePicker {
            selected_title: String::from_str(selected_title),
            available_title: String::from_str(available_title),
            selected,
            available,
            search_bar: LineEditor::new("Search"),
            on_selected: false,
            available_cursor: 0,
            selected_cursor: 0,
        }
    }

    /// The titles of the chosen list and of the offered list.
    pub fn titles(&self) -> (r: (String, String))
        ensures
            r.0@ == self@.selected_title,
            r.1@ == self@.available_title,
    {
        (self.selected_title.clone(), self.available_title.clone())
    }

    /// The packages chosen so far.
    pub fn get_selected_packages(&self) -> (r: Vec<String>)
        ensures
            r.deep_view() == self@.selected,
    {
        copy_strings(&self.selected)
    }

    /// The offered packages that the search text lets through.
    pub fn visible_packages(&self) -> (r: Vec<String>)
        ensures
            r.deep_view() == visible_available(self@),
    {
        let needle = self.search_bar.value();
        let needle_chars = chars_of(needle.as_str());
        let ghost pred = matches_search(self@.search.text);
        let ghost all = self.available.deep_view();
        let mut r: Vec<String> = Vec::new();
        let mut i: usize = 0;
        while i < self.available.len()
            invariant
                i <= self.available.len(),
                all == self.available.deep_view(),
                pred == matches_search(self@.search.text),
                needle_chars@ == self@.search.text,
                r.deep_view() == all.subrange(0, i as int).filter(pred),
            decreases self.available.len() - i,
        {
            let ghost prefix = all.subrange(0, i as int);
            assert(all.subrange(0, i + 1) =~= prefix.push(all[i as int]));
            assert(all.subrange(0, i + 1).drop_last() =~= prefix);
            assert(all.subrange(0, i + 1).filter(pred) == (if pred(all[i as int]) {
                prefix.filter(pred).push(all[i as int])
            } else {
                prefix.filter(pred)
            })) by {
                reveal_with_fuel(Seq::filter, 1);
            }
            let name_chars = chars_of(self.available[i].as_str());
            assert(name_chars@ == all[i as int]);
            if chars_contain_run(&name_chars, &needle_chars) {
                let item = self.available[i].clone();
                let ghost before = r.deep_view();
                r.push(item);
                assert(r.deep_view() =~= before.push(item@));
            }
            i = i + 1;
        }
        assert(all.subrange(0, all.len() as int) =~= all);
        r
    }

    /// The search bar.
    pub fn search_bar(&self) -> (r: &LineEditor)
        ensures
            r@ == self@.search,
    {
        &self.search_bar
    }

    /// Whether the list of chosen packages has the cursor.
    pub fn on_selected_list(&self) -> (r: bool)
        ensures
            r == self@.on_selected,
    {
        self.on_selected
    }

    /// The cursor positions in the offered list and in the chosen list.
    pub fn cursors(&self) -> (r: (usize, usize))
        ensures
            r.0 == self@.available_cursor,
            r.1 == self@.selected_cursor,
    {
        (self.available_cursor, self.selected_cursor)
    }

    /// Handles key `k` (see `picker_after_key`); the picker never asks to leave its page.
    pub fn handle_input(&mut self, k: Key) -> (r: Signal)
        ensures
            final(self)@ == picker_after_key(old(self)@, k),
            r@ is Wait,
    {
        if self.search_bar.is_focused() {
            if k == Key::Tab || k == Key::Enter || k == Key::Esc {
                self.search_bar.unfocus();
                self.on_selected = false;
            } else {
                self.search_bar.handle_input(k);
                self.available_cursor = 0;
            }
        } else if key_is_char(k, '/') {
            self.search_bar.focus();
        } else if k == Key::Tab {
            if self.on_selected {
                self.search_bar.focus();
                self.on_selected = false;
            } else {
                self.on_selected = true;
            }
        } else if key_is_down(k) {
            if self.on_selected {
                if self.selected_cursor < self.selected.len() && self.selected_cursor + 1
                    < self.selected.len() {
                    self.selected_cursor = self.selected_cursor + 1;
                }
            } else {
                let visible = self.visible_packages();
                if self.available_cursor < visible.len() && self.available_cursor + 1
                    < visible.len() {
                    self.available_cursor = self.available_cursor + 1;
                }
            }
        } else if key_is_up(k) {
            if self.on_selected {
                if self.selected_cursor > 0 {
                    self.selected_cursor = self.selected_cursor - 1;
                }
            } else if self.available_cursor > 0 {
                self.available_cursor = self.available_cursor - 1;
            }
        } else if k == Key::Enter {
            self.enter();
        }
        Signal::Wait
    }

    /// Enter on the picker (see `picker_enter`).
    fn enter(&mut self)
        ensures
            final(self)@ == picker_enter(old(self)@),
    {
        if !self.on_selected {
            let visible = self.visible_packages();
            if self.available_cursor < visible.len() {
                let name = visible[self.available_cursor].clone();
                assert(name@ == visible_available(self@)[self.available_cursor as int]);
                if !strings_contain(&self.selected, &name) {
                    let ghost before = self.selected.deep_view();
                    self.selected.push(name);
                    assert(self.selected.deep_view() =~= before.push(name@));
                }
            }
        } else if self.selected_cursor < self.selected.len() {
            let ghost before = self.selected.deep_view();
            self.selected.remove(self.selected_cursor);
            assert(self.selected.deep_view() =~= before.remove(self.selected_cursor as int));
            if self.selected_cursor >= self.selected.len() {
                if self.selected.len() > 0 {
                    self.selected_cursor = self.selected.len() - 1;
                } else {
                    self.selected_cursor = 0;
                }
            }
        }
    }
}

} // verus!
