use vstd::prelude::*;

verus! {

/// How a piece of help text is shown: plain, as a key name (yellow, bold), or highlighted.
#[derive(Debug, Clone, Copy, PartialEq, Eq, Structural)]
pub enum SpanStyle {
    Plain,
    Key,
    Highlight,
}

/// A piece of text with its style.
#[derive(Debug)]
pub struct Span {
    pub text: String,
    pub style: SpanStyle,
}

/// What a `Span` is.
pub struct SpanView {
    pub text: Seq<char>,
    pub style: SpanStyle,
}

impl View for Span {
    type V = SpanView;

    open spec fn view(&self) -> SpanView {
        SpanView { text: self.text@, style: self.style }
    }
}

impl DeepView for Span {
    type V = SpanView;

    open spec fn deep_view(&self) -> SpanView {
        self.view()
    }
}

/// Plain text.
pub open spec fn plain(t: Seq<char>) -> SpanView {
    SpanView { text: t, style: SpanStyle::Plain }
}

/// A key name.
pub open spec fn key(t: Seq<char>) -> SpanView {
    SpanView { text: t, style: SpanStyle::Key }
}

/// Highlighted text.
pub open spec fn highlight(t: Seq<char>) -> SpanView {
    SpanView { text: t, style: SpanStyle::Highlight }
}

/// A help line naming a key and what it does.
pub open spec fn key_line(k: Seq<char>, what: Seq<char>) -> Seq<SpanView> {
    seq![key(k), plain(what)]
}

/// A help line of plain text.
pub open spec fn plain_line(t: Seq<char>) -> Seq<SpanView> {
    seq![plain(t)]
}

/// The help overlay of a page: a title, lines of styled text, and whether it shows.
#[derive(Debug)]
pub struct HelpModal {
    visible: bool,
    title: String,
    content: Vec<Vec<Span>>,
}

/// What a `HelpModal` is.
pub struct HelpModalView {
    pub visible: bool,
    pub title: Seq<char>,
    pub content: Seq<Seq<SpanView>>,
}

impl View for HelpModal {
    type V = HelpModalView;

    closed spec fn view(&self) -> HelpModalView {
        HelpModalView {
            visible: self.visible,
            title: self.title@,
            content: self.content.deep_view(),
        }
    }
}

/// The overlay shown when hidden and hidden when shown.
pub open spec fn help_toggled(h: HelpModalView) -> HelpModalView {
    HelpModalView { visible: !h.visible, ..h }
}

/// The overlay hidden.
pub open spec fn help_closed(h: HelpModalView) -> HelpModalView {
    HelpModalView { visible: false, ..h }
}

impl HelpModal {
    /// A hidden overlay titled `title` showing `content`.
    pub fn new(title: &str, content: Vec<Vec<Span>>) -> (r: HelpModal)
        ensures
            r@ == (HelpModalView { visible: false, title: title@, content: content.deep_view() }),
    {
        HelpModal { visible: false, title: String::from_str(title), content }
    }

    /// Whether the overlay shows.
    pub fn is_visible(&self) -> (r: bool)
        ensures
            r == self@.visible,
    {
        self.visible
    }

    /// Shows the overlay when hidden, hides it when shown.
    pub fn toggle(&mut self)
        ensures
            final(self)@ == help_toggled(old(self)@),
    {
        self.visible = !self.visible;
    }

    /// Hides the overlay.
    pub fn close(&mut self)
        ensures
            final(self)@ == help_closed(old(self)@),
    {
        self.visible = false;
    }

    /// The overlay's title.
    pub fn title(&self) -> (r: String)
        ensures
            r@ == self@.title,
    {
        self.title.clone()
    }

    /// The overlay's lines.
    pub fn content(&self) -> (r: Vec<Vec<Span>>)
        ensures
            r.deep_view() == self@.content,
    {
        copy_lines(&self.content)
    }
}

/// A copy of some lines of styled text.
pub fn copy_lines(lines: &Vec<Vec<Span>>) -> (r: Vec<Vec<Span>>)
    ensures
        r.deep_view() == lines.deep_view(),
{
    let mut r: Vec<Vec<Span>> = Vec::new();
    let mut i: usize = 0;
    while i < lines.len()
        invariant
            i <= lines.len(),
            r.deep_view() == lines.deep_view().subrange(0, i as int),
        decreases lines.len() - i,
    {
        let mut line: Vec<Span> = Vec::new();
        let n = lines[i].len();
        let mut j: usize = 0;
        while j < n
            invariant
                i < lines.len(),
                n == lines[i as int].len(),
                j <= n,
                line.deep_view() == lines[i as int].deep_view().subrange(0, j as int),
            decreases n - j,
        {
            let s = &lines[i][j];
            let copy = Span { text: s.text.clone(), style: s.style };
            let ghost before = line.deep_view();
            line.push(copy);
            assert(line.deep_view() =~= before.push(copy@));
            assert(line.deep_view() =~= lines[i as int].deep_view().subrange(0, j + 1));
            j = j + 1;
        }
        assert(lines[i as int].deep_view().subrange(0, lines[i as int].len() as int)
            =~= lines[i as int].deep_view());
        let ghost before = r.deep_view();
        r.push(line);
        assert(r.deep_view() =~= before.push(lines.deep_view()[i as int]));
        assert(r.deep_view() =~= lines.deep_view().subrange(0, i + 1));
        i = i + 1;
    }
    assert(lines.deep_view().subrange(0, lines.len() as int) =~= lines.deep_view());
    r
}

/// Appends the piece `text`, shown with `style`, to `line`.
fn push_span(line: &mut Vec<Span>, text: &str, style: SpanStyle)
    ensures
        final(line).deep_view() == old(line).deep_view().push(
            SpanView { text: text@, style },
        ),
{
    let ghost before = line.deep_view();
    let s = Span { text: String::from_str(text), style };
    line.push(s);
    assert(line.deep_view() =~= before.push(SpanView { text: text@, style }));
}

/// Appends to `lines` a line naming key `k` and what it does.
fn push_key_line(lines: &mut Vec<Vec<Span>>, k: &str, what: &str)
    ensures
        final(lines).deep_view() == old(lines).deep_view().push(key_line(k@, what@)),
{
    let mut line: Vec<Span> = Vec::new();
    push_span(&mut line, k, SpanStyle::Key);
    push_span(&mut line, what, SpanStyle::Plain);
    assert(line.deep_view() =~= key_line(k@, what@));
    let ghost before = lines.deep_view();
    lines.push(line);
    assert(lines.deep_view() =~= before.push(key_line(k@, what@)));
}

/// Appends to `lines` a line of plain text.
fn push_plain_line(lines: &mut Vec<Vec<Span>>, text: &str)
    ensures
        final(lines).deep_view() == old(lines).deep_view().push(plain_line(text@)),
{
    let mut line: Vec<Span> = Vec::new();
    push_span(&mut line, text, SpanStyle::Plain);
    assert(line.deep_view() =~= plain_line(text@));
    let ghost before = lines.deep_view();
    lines.push(line);
    assert(lines.deep_view() =~= before.push(plain_line(text@)));
}

/// Appends to `lines` the line made of `spans`.
fn push_line(lines: &mut Vec<Vec<Span>>, spans: Vec<Span>)
    ensures
        final(lines).deep_view() == old(lines).deep_view().push(spans.deep_view()),
{
    let ghost before = lines.deep_view();
    let ghost sv = spans.deep_view();
    lines.push(spans);
    assert(lines.deep_view() =~= before.push(sv));
}

/// The help of the accounts page, as the page opens it.
pub open spec fn accounts_help_on_open() -> Seq<Seq<SpanView>> {
    seq![
        key_line("↑/↓, j/k"@, " - Navigate user list"@),
        key_line("Enter →, l"@, " - Add new user or edit selected user"@),
        key_line("Tab"@, " - Switch between user list and buttons"@),
        key_line("Esc, q, ←, h"@, " - Return to main menu"@),
        key_line("?"@, " - Show this help"@),
        plain_line(""@),
        plain_line("Create user accounts for your NixOS system."@),
        plain_line("Select 'Add a new user' to create accounts, or select"@),
        plain_line("an existing user to modify their settings."@),
    ]
}

/// The help of the accounts page, as the help screen lists it.
pub open spec fn accounts_help() -> Seq<Seq<SpanView>> {
    seq![
        key_line("↑/↓, j/k"@, " - Navigate user list"@),
        key_line("Enter, →, j"@, " - Add new user or edit selected user"@),
        key_line("Tab"@, " - Switch between user list and buttons"@),
        key_line("Esc, q, ←, h"@, " - Return to main menu"@),
        key_line("?"@, " - Show this help"@),
        plain_line(""@),
        plain_line("Create user accounts for your NixOS system."@),
        plain_line("Select 'Add a new user' to create accounts, or select"@),
        plain_line("an existing user to modify their settings."@),
    ]
}

/// The help of the add-user page.
pub open spec fn add_user_help() -> Seq<Seq<SpanView>> {
    seq![
        key_line("Tab"@, " - Move to next field"@),
        key_line("Shift+Tab"@, " - Move to previous field"@),
        key_line("Enter"@, " - Create user account"@),
        key_line("Esc"@, " - Cancel and return"@),
        key_line("←/→"@, " - Move cursor in text field"@),
        key_line("Home/End"@, " - Jump to field beginning/end"@),
        key_line("?"@, " - Show this help"@),
        plain_line(""@),
        plain_line("Create a new user account for your NixOS system."@),
        plain_line("Enter username, password, and confirm password."@),
        plain_line("Passwords are hidden during entry for security."@),
    ]
}

/// The help of the alter-user page.
pub open spec fn alter_user_help() -> Seq<Seq<SpanView>> {
    seq![
        key_line("↑/↓, j/k"@, " - Navigate menu options"@),
        key_line("Enter, →, l"@, " - Select option"@),
        key_line("Tab"@, " - Navigate between fields"@),
        key_line("Esc, q, ←, h"@, " - Return to previous menu"@),
        key_line("?"@, " - Show this help"@),
        plain_line(""@),
        plain_line("Modify an existing user account. Choose from changing"@),
        plain_line("username, password, groups, or deleting the user."@),
    ]
}

/// The help of the system-packages page.
pub open spec fn system_pkgs_help() -> Seq<Seq<SpanView>> {
    seq![
        key_line("Tab"@, " - Switch between lists and search"@),
        key_line("↑/↓, j/k"@, " - Navigate package lists"@),
        key_line("Enter"@, " - Add/remove package to/from selection"@),
        key_line("/"@, " - Focus search bar"@),
        key_line("Esc"@, " - Return to main menu"@),
        key_line("?"@, " - Show this help"@),
        plain_line(""@),
        plain_line("Search filters packages in real-time as you type."@),
        plain_line("Filter persists when adding/removing packages."@),
        plain_line("Selected packages will be installed on your NixOS system."@),
    ]
}

/// The hint shown beside the group editor.
pub open spec fn group_editor_hint() -> Seq<Seq<SpanView>> {
    seq![
        seq![plain("Use "@), highlight("tab "@), plain("to switch between new group input and group list"@)],
        seq![plain("Pressing "@), highlight("enter "@), plain("on an existing group will delete it."@)],
        seq![
            plain("Adding the '"@),
            highlight("wheel"@),
            plain("' group enables the use of "@),
            highlight("sudo"@),
            plain("."@),
        ],
    ]
}

/// The question the home-manager page asks first.
pub open spec fn home_manager_question() -> Seq<Seq<SpanView>> {
    seq![
        plain_line("Configure Home Manager for this user?"@),
        seq![
            plain("This will set up a "@),
            highlight("home manager "@),
            plain("configuration for the user in the "@),
            highlight("configuration.nix "@),
            plain("generated by this installer."@),
        ],
        seq![
            highlight("Home Manager"@),
            plain(" allows you to declaratively manage your user environment using "@),
            highlight("Nix"@),
            plain("."@),
        ],
    ]
}

/// The help of the accounts page, as the page opens it.
pub fn accounts_help_on_open_lines() -> (r: Vec<Vec<Span>>)
    ensures
        r.deep_view() == accounts_help_on_open(),
{
    let mut r: Vec<Vec<Span>> = Vec::new();
    push_key_line(&mut r, "↑/↓, j/k", " - Navigate user list");
    push_key_line(&mut r, "Enter →, l", " - Add new user or edit selected user");
    push_key_line(&mut r, "Tab", " - Switch between user list and buttons");
    push_key_line(&mut r, "Esc, q, ←, h", " - Return to main menu");
    push_key_line(&mut r, "?", " - Show this help");
    push_plain_line(&mut r, "");
    push_plain_line(&mut r, "Create user accounts for your NixOS system.");
    push_plain_line(&mut r, "Select 'Add a new user' to create accounts, or select");
    push_plain_line(&mut r, "an existing user to modify their settings.");
    assert(r.deep_view() =~= accounts_help_on_open());
    r
}

/// The help of the accounts page, as the help screen lists it.
pub fn accounts_help_lines() -> (r: Vec<Vec<Span>>)
    ensures
        r.deep_view() == accounts_help(),
{
    let mut r: Vec<Vec<Span>> = Vec::new();
    push_key_line(&mut r, "↑/↓, j/k", " - Navigate user list");
    push_key_line(&mut r, "Enter, →, j", " - Add new user or edit selected user");
    push_key_line(&mut r, "Tab", " - Switch between user list and buttons");
    push_key_line(&mut r, "Esc, q, ←, h", " - Return to main menu");
    push_key_line(&mut r, "?", " - Show this help");
    push_plain_line(&mut r, "");
    push_plain_line(&mut r, "Create user accounts for your NixOS system.");
    push_plain_line(&mut r, "Select 'Add a new user' to create accounts, or select");
    push_plain_line(&mut r, "an existing user to modify their settings.");
    assert(r.deep_view() =~= accounts_help());
    r
}

/// The help of the add-user page.
pub fn add_user_help_lines() -> (r: Vec<Vec<Span>>)
    ensures
        r.deep_view() == add_user_help(),
{
    let mut r: Vec<Vec<Span>> = Vec::new();
    push_key_line(&mut r, "Tab", " - Move to next field");
    push_key_line(&mut r, "Shift+Tab", " - Move to previous field");
    push_key_line(&mut r, "Enter", " - Create user account");
    push_key_line(&mut r, "Esc", " - Cancel and return");
    push_key_line(&mut r, "←/→", " - Move cursor in text field");
    push_key_line(&mut r, "Home/End", " - Jump to field beginning/end");
    push_key_line(&mut r, "?", " - Show this help");
    push_plain_line(&mut r, "");
    push_plain_line(&mut r, "Create a new user account for your NixOS system.");
    push_plain_line(&mut r, "Enter username, password, and confirm password.");
    push_plain_line(&mut r, "Passwords are hidden during entry for security.");
    assert(r.deep_view() =~= add_user_help());
    r
}

/// The help of the alter-user page.
pub fn alter_user_help_lines() -> (r: Vec<Vec<Span>>)
    ensures
        r.deep_view() == alter_user_help(),
{
    let mut r: Vec<Vec<Span>> = Vec::new();
    push_key_line(&mut r, "↑/↓, j/k", " - Navigate menu options");
    push_key_line(&mut r, "Enter, →, l", " - Select option");
    push_key_line(&mut r, "Tab", " - Navigate between fields");
    push_key_line(&mut r, "Esc, q, ←, h", " - Return to previous menu");
    push_key_line(&mut r, "?", " - Show this help");
    push_plain_line(&mut r, "");
    push_plain_line(&mut r, "Modify an existing user account. Choose from changing");
    push_plain_line(&mut r, "username, password, groups, or deleting the user.");
    assert(r.deep_view() =~= alter_user_help());
    r
}

/// The help of the system-packages page.
pub fn system_pkgs_help_lines() -> (r: Vec<Vec<Span>>)
    ensures
        r.deep_view() == system_pkgs_help(),
{
    let mut r: Vec<Vec<Span>> = Vec::new();
    push_key_line(&mut r, "Tab", " - Switch between lists and search");
    push_key_line(&mut r, "↑/↓, j/k", " - Navigate package lists");
    push_key_line(&mut r, "Enter", " - Add/remove package to/from selection");
    push_key_line(&mut r, "/", " - Focus search bar");
    push_key_line(&mut r, "Esc", " - Return to main menu");
    push_key_line(&mut r, "?", " - Show this help");
    push_plain_line(&mut r, "");
    push_plain_line(&mut r, "Search filters packages in real-time as you type.");
    push_plain_line(&mut r, "Filter persists when adding/removing packages.");
    push_plain_line(&mut r, "Selected packages will be installed on your NixOS system.");
    assert(r.deep_view() =~= system_pkgs_help());
    r
}

/// The hint shown beside the group editor.
pub fn group_editor_hint_lines() -> (r: Vec<Vec<Span>>)
    ensures
        r.deep_view() == group_editor_hint(),
{
    let mut r: Vec<Vec<Span>> = Vec::new();
    let mut l1: Vec<Span> = Vec::new();
    push_span(&mut l1, "Use ", SpanStyle::Plain);
    push_span(&mut l1, "tab ", SpanStyle::Highlight);
    push_span(&mut l1, "to switch between new group input and group list", SpanStyle::Plain);
    assert(l1.deep_view() =~= group_editor_hint()[0]);
    push_line(&mut r, l1);
    let mut l2: Vec<Span> = Vec::new();
    push_span(&mut l2, "Pressing ", SpanStyle::Plain);
    push_span(&mut l2, "enter ", SpanStyle::Highlight);
    push_span(&mut l2, "on an existing group will delete it.", SpanStyle::Plain);
    assert(l2.deep_view() =~= group_editor_hint()[1]);
    push_line(&mut r, l2);
    let mut l3: Vec<Span> = Vec::new();
    push_span(&mut l3, "Adding the '", SpanStyle::Plain);
    push_span(&mut l3, "wheel", SpanStyle::Highlight);
    push_span(&mut l3, "' group enables the use of ", SpanStyle::Plain);
    push_span(&mut l3, "sudo", SpanStyle::Highlight);
    push_span(&mut l3, ".", SpanStyle::Plain);
    assert(l3.deep_view() =~= group_editor_hint()[2]);
    push_line(&mut r, l3);
    assert(r.deep_view() =~= group_editor_hint());
    r
}

/// The question the home-manager page asks first.
pub fn home_manager_question_lines() -> (r: Vec<Vec<Span>>)
    ensures
        r.deep_view() == home_manager_question(),
{
    let mut r: Vec<Vec<Span>> = Vec::new();
    push_plain_line(&mut r, "Configure Home Manager for this user?");
    let mut l2: Vec<Span> = Vec::new();
    push_span(&mut l2, "This will set up a ", SpanStyle::Plain);
    push_span(&mut l2, "home manager ", SpanStyle::Highlight);
    push_span(&mut l2, "configuration for the user in the ", SpanStyle::Plain);
    push_span(&mut l2, "configuration.nix ", SpanStyle::Highlight);
    push_span(&mut l2, "generated by this installer.", SpanStyle::Plain);
    assert(l2.deep_view() =~= home_manager_question()[1]);
    push_line(&mut r, l2);
    let mut l3: Vec<Span> = Vec::new();
    push_span(&mut l3, "Home Manager", SpanStyle::Highlight);
    push_span(&mut l3, " allows you to declaratively manage your user environment using ", SpanStyle::Plain);
    push_span(&mut l3, "Nix", SpanStyle::Highlight);
    push_span(&mut l3, ".", SpanStyle::Plain);
    assert(l3.deep_view() =~= home_manager_question()[2]);
    push_line(&mut r, l3);
    assert(r.deep_view() =~= home_manager_question());
    r
}

/// One line of plain text.
pub fn plain_text_lines(text: &str) -> (r: Vec<Vec<Span>>)
    ensures
        r.deep_view() == seq![plain_line(text@)],
{
    let mut r: Vec<Vec<Span>> = Vec::new();
    push_plain_line(&mut r, text);
    assert(r.deep_view() =~= seq![plain_line(text@)]);
    r
}

} // verus!
