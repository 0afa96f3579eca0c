use vstd::prelude::*;
use crate::user::HomeManagerCfg;

verus! {

/// A key press, as the pages see it.
#[derive(Debug, Clone, Copy, PartialEq, Eq, Structural)]
pub enum Key {
    Char(char),
    Enter,
    Esc,
    Tab,
    BackTab,
    Up,
    Down,
    Left,
    Right,
    Home,
    End,
    Backspace,
    Delete,
    Other,
}

/// The keys that move down a list: Down and 'j'.
pub open spec fn is_down(k: Key) -> bool {
    k == Key::Down || k == Key::Char('j')
}

/// The keys that move up a list: Up and 'k'.
pub open spec fn is_up(k: Key) -> bool {
    k == Key::Up || k == Key::Char('k')
}

/// The keys that enter the selected item: Enter, Right and 'l'.
pub open spec fn is_enter(k: Key) -> bool {
    k == Key::Enter || k == Key::Right || k == Key::Char('l')
}

/// The keys that go back to the previous page: Esc, 'q', Left and 'h'.
pub open spec fn is_back(k: Key) -> bool {
    k == Key::Esc || k == Key::Char('q') || k == Key::Left || k == Key::Char('h')
}

/// The keys that close what is open: Esc and 'q'.
pub open spec fn is_close(k: Key) -> bool {
    k == Key::Esc || k == Key::Char('q')
}

/// Whether `k` moves down a list.
pub fn key_is_down(k: Key) -> (r: bool)
    ensures
        r == is_down(k),
{
    match k {
        Key::Down => true,
        Key::Char(c) => c == 'j',
        _ => false,
    }
}

/// Whether `k` moves up a list.
pub fn key_is_up(k: Key) -> (r: bool)
    ensures
        r == is_up(k),
{
    match k {
        Key::Up => true,
        Key::Char(c) => c == 'k',
        _ => false,
    }
}

/// Whether `k` enters the selected item.
pub fn key_is_enter(k: Key) -> (r: bool)
    ensures
        r == is_enter(k),
{
    match k {
        Key::Enter => true,
        Key::Right => true,
        Key::Char(c) => c == 'l',
        _ => false,
    }
}

/// Whether `k` goes back to the previous page.
pub fn key_is_back(k: Key) -> (r: bool)
    ensures
        r == is_back(k),
{
    match k {
        Key::Esc => true,
        Key::Left => true,
        Key::Char(c) => c == 'q' || c == 'h',
        _ => false,
    }
}

/// Whether `k` closes what is open.
pub fn key_is_close(k: Key) -> (r: bool)
    ensures
        r == is_close(k),
{
    match k {
        Key::Esc => true,
        Key::Char(c) => c == 'q',
        _ => false,
    }
}

/// Whether `k` is exactly the given character.
pub fn key_is_char(k: Key, c: char) -> (r: bool)
    ensures
        r == (k == Key::Char(c)),
{
    match k {
        Key::Char(d) => d == c,
        _ => false,
    }
}

/// What a page asks of whoever runs the pages, after a key.
#[derive(Debug)]
pub enum Signal {
    /// Stay on this page.
    Wait,
    /// Close this page and go back.
    Pop,
    /// Open the page that adds a user.
    PushAddUser,
    /// Open the page that alters the user at `user_index`, showing `groups`.
    PushAlterUser { user_index: usize, groups: Vec<String> },
    /// Open the home-manager page for the user at `user_index`.
    PushConfigureHomeManager { user_index: usize, existing: Option<HomeManagerCfg> },
    /// Hash `password` and hand the outcome back to the page.
    HashPassword { password: String },
    /// Report an error.
    Error(String),
}

/// What a `Signal` is, over plain values.
pub enum SignalView {
    Wait,
    Pop,
    PushAddUser,
    PushAlterUser { user_index: nat, groups: Seq<Seq<char>> },
    PushConfigureHomeManager { user_index: nat, existing: Option<Seq<Seq<char>>> },
    HashPassword { password: Seq<char> },
    Error(Seq<char>),
}

impl View for Signal {
    type V = SignalView;

    open spec fn view(&self) -> SignalView {
        match self {
            Signal::Wait => SignalView::Wait,
            Signal::Pop => SignalView::Pop,
            Signal::PushAddUser => SignalView::PushAddUser,
            Signal::PushAlterUser { user_index, groups } => SignalView::PushAlterUser {
                user_index: *user_index as nat,
                groups: groups.deep_view(),
            },
            Signal::PushConfigureHomeManager { user_index, existing } =>
                SignalView::PushConfigureHomeManager {
                user_index: *user_index as nat,
                existing: match existing {
                    Some(cfg) => Some(cfg@),
                    None => None,
                },
            },
            Signal::HashPassword { password } => SignalView::HashPassword { password: password@ },
            Signal::Error(msg) => SignalView::Error(msg@),
        }
    }
}

} // verus!
