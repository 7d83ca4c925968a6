//! The game-over screen.

use vstd::prelude::*;
use crate::host::{Host, HostView, Key, Paint, Request};
use crate::scene::{Scene, SceneSwitch};
use crate::utils::{Color, DrawableText};

verus! {

/// The game-over screen: it waits for the return key and then ends the
/// program.
#[derive(Clone, Copy, Debug, PartialEq, Eq, Structural)]
pub struct OverScene {
    /// Whether the return key has come.
    pub done: bool,
}

impl OverScene {
    /// What the game-over screen shows: the verdict, the prompt and the
    /// picture on a black ground.
    pub open spec fn picture() -> Seq<Paint> {
        seq![
            Paint::Clear(Color::Black),
            Paint::Text { text: "You Lose!", x: 64, y: 430, scale: 32, color: Color::Red },
            Paint::Text {
                text: "Press Enter To Exit",
                x: 32,
                y: 550,
                scale: 18,
                color: Color::White,
            },
            Paint::Image { path: "/over.png", x: 32, y: 32, percent: 80 },
        ]
    }

    /// A game-over screen on which no key has come yet.
    pub fn new(_ctx: &mut Host) -> (scene: Self)
        ensures
            !scene.done,
            *final(_ctx) == *old(_ctx),
    {
        Self { done: false }
    }
}

impl DrawableText for OverScene {
}

impl Scene for OverScene {
    type Context = Host;

    type Event = Key;

    /// Once the return key has come the scene asks the host to end the
    /// program and leaves; until then it stays and asks nothing.
    open spec fn updates(
        before: Self,
        host: Host,
        after: Self,
        left: Host,
        switch: SceneSwitch<Self>,
    ) -> bool {
        &&& after == before
        &&& if before.done {
            &&& left@ == (HostView { requests: host@.requests.push(Request::Quit), ..host@ })
            &&& switch == SceneSwitch::<Self>::Pop
        } else {
            &&& left@ == host@
            &&& switch == SceneSwitch::<Self>::Stay
        }
    }

    open spec fn draws(self, host: Host, left: Host) -> bool {
        left@ == (HostView { canvas: host@.canvas + Self::picture(), ..host@ })
    }

    /// The return key is remembered; no other key does anything.
    open spec fn handles(before: Self, host: Host, event: Key, after: Self, left: Host) -> bool {
        &&& after.done == (before.done || event == Key::Return)
        &&& left@ == host@
    }

    open spec fn label(self) -> &'static str {
        "over"
    }

    open spec fn layered(self) -> bool {
        false
    }

    fn update(&mut self, ctx: &mut Host) -> (switch: SceneSwitch<Self>) {
        if self.done {
            ctx.requests.push(Request::Quit);
            SceneSwitch::Pop
        } else {
            SceneSwitch::Stay
        }
    }

    fn draw(&self, ctx: &mut Host) {
        ctx.canvas.push(Paint::Clear(Color::Black));
        self.draw_text(&mut ctx.canvas, "You Lose!", [64, 430], 32, Color::Red);
        self.draw_text(&mut ctx.canvas, "Press Enter To Exit", [32, 550], 18, Color::White);
        ctx.canvas.push(Paint::Image { path: "/over.png", x: 32, y: 32, percent: 80 });
        assert(ctx@.canvas =~= old(ctx)@.canvas + Self::picture());
    }

    fn input(&mut self, _ctx: &mut Host, event: Key) {
        if let Key::Return = event {
            self.done = true;
        }
    }

    fn name(&self) -> (name: &'static str) {
        "over"
    }

    /// The scene covers the screen: nothing beneath it is drawn.
    fn draw_previous(&self) -> (beneath: bool) {
        false
    }
}

} // verus!
