use vstd::prelude::*;

verus! {

/// A button of the remote, as named in the device's keypress protocol.
#[derive(Debug, Clone, Copy, PartialEq, Eq, Structural)]
pub enum RokuKey {
    Home,
    Rev,
    Fwd,
    Play,
    Select,
    Left,
    Right,
    Down,
    Up,
    Back,
    InstantReplay,
    Info,
    Backspace,
    Search,
    Enter,
}

/// The exact, case-sensitive path segment that names `k` in a keypress request.
pub open spec fn key_name(k: RokuKey) -> Seq<char> {
    match k {
        RokuKey::Home => "Home"@,
        RokuKey::Rev => "Rev"@,
        RokuKey::Fwd => "Fwd"@,
        RokuKey::Play => "Play"@,
        RokuKey::Select => "Select"@,
        RokuKey::Left => "Left"@,
        RokuKey::Right => "Right"@,
        RokuKey::Down => "Down"@,
        RokuKey::Up => "Up"@,
        RokuKey::Back => "Back"@,
        RokuKey::InstantReplay => "InstantReplay"@,
        RokuKey::Info => "Info"@,
        RokuKey::Backspace => "Backspace"@,
        RokuKey::Search => "Search"@,
        RokuKey::Enter => "Enter"@,
    }
}

impl RokuKey {
    /// The path segment of this key in a keypress request.
    pub fn to_str(&self) -> (r: &'static str)
        ensures
            r@ == key_name(*self),
    {
        match *self {
            RokuKey::Home => "Home",
            RokuKey::Rev => "Rev",
            RokuKey::Fwd => "Fwd",
            RokuKey::Play => "Play",
            RokuKey::Select => "Select",
            RokuKey::Left => "Left",
            RokuKey::Right => "Right",
            RokuKey::Down => "Down",
            RokuKey::Up => "Up",
            RokuKey::Back => "Back",
            RokuKey::InstantReplay => "InstantReplay",
            RokuKey::Info => "Info",
            RokuKey::Backspace => "Backspace",
            RokuKey::Search => "Search",
            RokuKey::Enter => "Enter",
        }
    }
}

impl Default for RokuKey {
    /// The select button.
    fn default() -> (r: RokuKey)
        ensures
            r == RokuKey::Select,
    {
        RokuKey::Select
    }
}

} // verus!
