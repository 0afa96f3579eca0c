use vstd::prelude::*;
use crate::help::{plain_line, plain_text_lines, system_pkgs_help, system_pkgs_help_lines, Span};
use crate::keys::{is_close, key_is_close, Key, Signal, SignalView};
use crate::picker::{picker_after_key, picker_initial, PackagePicker, PackagePickerView};
use crate::text::strings_equal;
use crate::widgets::{TableWidget, TableWidgetView};

verus! {

/// The page that chooses the system-wide packages.
#[derive(Debug)]
pub struct SystemPackages {
    package_picker: PackagePicker,
}

impl View for SystemPackages {
    type V = PackagePickerView;

    closed spec fn view(&self) -> PackagePickerView {
        self.package_picker@
    }
}

/// The system-packages page after key `k`, with `pkgs` the chosen system packages, and
/// what it asks for: Esc or 'q' with the search bar unfocused leaves the page; any other
/// key goes to the picker, and when the picker's choice changes, it becomes the chosen
/// system packages.
pub open spec fn system_pkgs_step(p: PackagePickerView, pkgs: Seq<Seq<char>>, k: Key) -> (
    PackagePickerView,
    Seq<Seq<char>>,
    SignalView,
) {
    if is_close(k) && !p.search.focused {
        (p, pkgs, SignalView::Pop)
    } else {
        let q = picker_after_key(p, k);
        (q, if q.selected != p.selected { q.selected } else { pkgs }, SignalView::Wait)
    }
}

/// The page keeps the chosen system packages in step with its picker: if they matched
/// the picker's choice before a key, they match it after; and the picker never chooses a
/// package twice.
pub proof fn lemma_system_pkgs_in_step(p: PackagePickerView, pkgs: Seq<Seq<char>>, k: Key)
    requires
        pkgs == p.selected,
        p.selected.no_duplicates(),
    ensures
        system_pkgs_step(p, pkgs, k).1 == system_pkgs_step(p, pkgs, k).0.selected,
        system_pkgs_step(p, pkgs, k).1.no_duplicates(),
{
    crate::picker::lemma_picker_keeps_selection_distinct(p, k);
}

/// The one-column rows that list `pkgs`, one package per row.
pub open spec fn package_rows(pkgs: Seq<Seq<char>>) -> Seq<Seq<Seq<char>>> {
    pkgs.map_values(|p: Seq<char>| seq![p])
}

impl SystemPackages {
    /// The page with `selected_pkgs` chosen out of `available_pkgs`.
    pub fn new(selected_pkgs: Vec<String>, available_pkgs: Vec<String>) -> (r: SystemPackages)
        ensures
            r@ == picker_initial(
                "Selected Packages"@,
                "Available Packages"@,
                selected_pkgs.deep_view(),
                available_pkgs.deep_view(),
            ),
    {
        let package_picker = PackagePicker::new(
            "Selected Packages",
            "Available Packages",
            selected_pkgs,
            available_pkgs,
        );
        SystemPackages { package_picker }
    }

    /// The page's package picker.
    pub fn package_picker(&self) -> (r: &PackagePicker)
        ensures
            r@ == self@,
    {
        &self.package_picker
    }

    /// The table that shows the chosen system packages on the summary screen, one per row
    /// under the header "Packages", or nothing when none is chosen.
    pub fn display_widget(system_pkgs: &Vec<String>) -> (r: Option<TableWidget>)
        ensures
            match r {
                None => system_pkgs@.len() == 0,
                Some(t) => system_pkgs@.len() > 0 && t@ == (TableWidgetView {
                    title: ""@,
                    headers: seq!["Packages"@],
                    rows: package_rows(system_pkgs.deep_view()),
                    selected: 0,
                    focused: false,
                }),
            },
    {
        if system_pkgs.len() == 0 {
            return None;
        }
        let mut rows: Vec<Vec<String>> = Vec::new();
        let mut i: usize = 0;
        while i < system_pkgs.len()
            invariant
                i <= system_pkgs.len(),
                rows.deep_view() == package_rows(system_pkgs.deep_view().subrange(0, i as int)),
            decreases system_pkgs.len() - i,
        {
            let mut row: Vec<String> = Vec::new();
            row.push(system_pkgs[i].clone());
            assert(row.deep_view() =~= seq![system_pkgs.deep_view()[i as int]]);
            let ghost before = rows.deep_view();
            rows.push(row);
            assert(rows.deep_view() =~= before.push(seq![system_pkgs.deep_view()[i as int]]));
            assert(package_rows(system_pkgs.deep_view().subrange(0, i + 1)) =~= before.push(
                seq![system_pkgs.deep_view()[i as int]],
            ));
            i = i + 1;
        }
        assert(system_pkgs.deep_view().subrange(0, system_pkgs.len() as int)
            =~= system_pkgs.deep_view());
        let mut headers: Vec<String> = Vec::new();
        headers.push(String::from_str("Packages"));
        assert(headers.deep_view() =~= seq!["Packages"@]);
        Some(TableWidget::new("", headers, rows))
    }

    /// The help screen of the page: its title and lines.
    pub fn get_help_content(&self) -> (r: (String, Vec<Vec<Span>>))
        ensures
            r.0@ == "System Packages"@,
            r.1.deep_view() == system_pkgs_help(),
    {
        (String::from_str("System Packages"), system_pkgs_help_lines())
    }

    /// The page's title and its one-line description.
    pub fn page_info() -> (r: (String, Vec<Vec<Span>>))
        ensures
            r.0@ == "System Packages"@,
            r.1.deep_view() == seq![plain_line(
                "Select extra system packages to include in the configuration"@,
            )],
    {
        (
            String::from_str("System Packages"),
            plain_text_lines("Select extra system packages to include in the configuration"),
        )
    }

    /// Handles key `k` with `system_pkgs` the chosen system packages (see
    /// `system_pkgs_step`).
    pub fn handle_input(&mut self, system_pkgs: &mut Vec<String>, k: Key) -> (r: Signal)
        ensures
            (final(self)@, final(system_pkgs).deep_view(), r@) == system_pkgs_step(
                old(self)@,
                old(system_pkgs).deep_view(),
                k,
            ),
    {
        if key_is_close(k) && !self.package_picker.search_bar().is_focused() {
            return Signal::Pop;
        }
        let previous = self.package_picker.get_selected_packages();
        let signal = self.package_picker.handle_input(k);
        let current = self.package_picker.get_selected_packages();
        if !strings_equal(&previous, &current) {
            *system_pkgs = current;
        }
        signal
    }
}

} // verus!
