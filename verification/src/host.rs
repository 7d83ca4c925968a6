//! What the scenes see of the program that runs them, and what they ask of it.

use vstd::prelude::*;
use vstd::string::StringExecFns;
use crate::utils::{Color, Position};

verus! {

/// A key that was released.
#[derive(Clone, Copy, Debug, PartialEq, Eq, Structural)]
pub enum Key {
    Left,
    Right,
    Up,
    Down,
    P,
    Return,
    Other,
}

/// One thing to draw.
#[derive(Clone, Copy, Debug, PartialEq, Eq)]
pub enum Paint {
    /// The whole frame in one colour.
    Clear(Color),
    /// A line of text with its top left corner at `x`, `y`.
    Text { text: &'static str, x: u32, y: u32, scale: u32, color: Color },
    /// A label and a number, the number written with four digits at least.
    Counter { label: &'static str, value: u16, x: u32, y: u32, scale: u32, color: Color },
    /// A picture at `percent` hundredths of its size.
    Image { path: &'static str, x: u32, y: u32, percent: u32 },
    /// One cell of the grid.
    Cell { position: Position, color: Color },
}

/// The figure that stands for `d`.
pub open spec fn figure(d: int) -> char {
    if d == 0 {
        '0'
    } else if d == 1 {
        '1'
    } else if d == 2 {
        '2'
    } else if d == 3 {
        '3'
    } else if d == 4 {
        '4'
    } else if d == 5 {
        '5'
    } else if d == 6 {
        '6'
    } else if d == 7 {
        '7'
    } else if d == 8 {
        '8'
    } else {
        '9'
    }
}

/// `value` in figures, with zeros in front where it has fewer than four.
pub open spec fn padded(value: u16) -> Seq<char> {
    let number = value as int;
    let low = seq![
        figure(number / 1000 % 10),
        figure(number / 100 % 10),
        figure(number / 10 % 10),
        figure(number % 10),
    ];
    if number >= 10000 {
        seq![figure(number / 10000)] + low
    } else {
        low
    }
}

/// The text of a counter: the label, a space, and the number in four
/// figures at least.
pub open spec fn spec_caption(label: Seq<char>, value: u16) -> Seq<char> {
    label + seq![' '] + padded(value)
}

fn figure_text(d: u16) -> (text: &'static str)
    requires
        d < 10,
    ensures
        text@ == seq![figure(d as int)],
{
    proof {
        reveal_strlit("0");
        reveal_strlit("1");
        reveal_strlit("2");
        reveal_strlit("3");
        reveal_strlit("4");
        reveal_strlit("5");
        reveal_strlit("6");
        reveal_strlit("7");
        reveal_strlit("8");
        reveal_strlit("9");
    }
    let text = match d {
        0 => "0",
        1 => "1",
        2 => "2",
        3 => "3",
        4 => "4",
        5 => "5",
        6 => "6",
        7 => "7",
        8 => "8",
        _ => "9",
    };
    assert(text@ =~= seq![figure(d as int)]);
    text
}

/// The text of a counter.
pub fn caption(label: &str, value: u16) -> (text: String)
    ensures
        text@ == spec_caption(label@, value),
{
    proof {
        reveal_strlit(" ");
    }
    let mut text = String::from_str(label);
    text.append(" ");
    assert(text@ =~= label@ + seq![' ']);
    if value >= 10000 {
        text.append(figure_text(value / 10000));
    }
    text.append(figure_text(value / 1000 % 10));
    text.append(figure_text(value / 100 % 10));
    text.append(figure_text(value / 10 % 10));
    text.append(figure_text(value % 10));
    assert(text@ =~= spec_caption(label@, value));
    text
}

/// One thing for the host to do once the scene has returned.
#[derive(Clone, Copy, Debug, PartialEq, Eq, Structural)]
pub enum Request {
    /// Keep the music going: take it up again if it is paused, start it if
    /// it has stopped.
    PlayMusic,
    /// Pause the music if it is playing.
    PauseMusic,
    /// Stop the music.
    StopMusic,
    /// Play the sound of the crash once.
    Crash,
    /// Fetch the stored record and put it in the inbox when it comes.
    Fetch,
    /// Store a new record, and put it in the inbox once it is stored.
    Save(u16),
    /// End the program.
    Quit,
}

/// The host as a scene sees it during one call.
pub struct Host {
    /// A record that has arrived and that no scene has taken yet.
    pub inbox: Option<u16>,
    /// Whether the key for the hard drop is held down.
    pub drop_held: bool,
    /// What the scenes have asked for, the oldest request first.
    pub requests: Vec<Request>,
    /// What the scenes have drawn, in the order in which they drew it.
    pub canvas: Vec<Paint>,
}

/// A host by its contents.
pub struct HostView {
    pub inbox: Option<u16>,
    pub drop_held: bool,
    pub requests: Seq<Request>,
    pub canvas: Seq<Paint>,
}

impl View for Host {
    type V = HostView;

    open spec fn view(&self) -> HostView {
        HostView {
            inbox: self.inbox,
            drop_held: self.drop_held,
            requests: self.requests@,
            canvas: self.canvas@,
        }
    }
}

impl Host {
    /// A host with nothing asked and nothing drawn.
    pub fn new(inbox: Option<u16>, drop_held: bool) -> (host: Host)
        ensures
            host@ == (HostView { inbox, drop_held, requests: Seq::empty(), canvas: Seq::empty() }),
    {
        Host { inbox, drop_held, requests: Vec::new(), canvas: Vec::new() }
    }
}

} // verus!
