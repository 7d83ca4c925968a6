//! The start screen.

use vstd::prelude::*;
use crate::host::{Host, HostView, Key, Paint};
use crate::scene::{Scene, SceneSwitch};
use crate::utils::{Color, DrawableText};

verus! {

/// The start screen: it waits for the return key.
#[derive(Clone, Copy, Debug, PartialEq, Eq, Structural)]
pub struct StartScene {
    /// Whether the return key has come.
    pub done: bool,
}

impl StartScene {
    /// What the start screen shows: the title, the prompt and the logo on a
    /// black ground.
    pub open spec fn picture() -> Seq<Paint> {
        seq![
            Paint::Clear(Color::Black),
            Paint::Text { text: "Tetris", x: 64, y: 430, scale: 40, color: Color::Red },
            Paint::Text { text: "Press Enter Key", x: 64, y: 580, scale: 18, color: Color::White },
            Paint::Image { path: "/logo.png", x: 0, y: 0, percent: 100 },
        ]
    }

    /// A start screen on which no key has come yet.
    pub fn new(_ctx: &mut Host) -> (scene: Self)
        ensures
            !scene.done,
            *final(_ctx) == *old(_ctx),
    {
        Self { done: false }
    }
}

impl DrawableText for StartScene {
}

impl Scene for StartScene {
    type Context = Host;

    type Event = Key;

    /// The scene leaves once the return key has come, and stays until then.
    /// It asks nothing of the host.
    open spec fn updates(
        before: Self,
        host: Host,
        after: Self,
        left: Host,
        switch: SceneSwitch<Self>,
    ) -> bool {
        &&& after == before
        &&& left@ == host@
        &&& switch == if before.done {
            SceneSwitch::<Self>::Pop
        } else {
            SceneSwitch::<Self>::Stay
        }
    }

    open spec fn draws(self, host: Host, left: Host) -> bool {
        left@ == (HostView { canvas: host@.canvas + Self::picture(), ..host@ })
    }

    /// The return key is remembered; no other key does anything.
    open spec fn handles(before: Self, host: Host, event: Key, after: Self, left: Host) -> bool {
        &&& after.done == (before.done || event == Key::Return)
        &&& left@ == host@
    }

    open spec fn label(self) -> &'static str {
        "start"
    }

    open spec fn layered(self) -> bool {
        false
    }

    fn update(&mut self, _ctx: &mut Host) -> (switch: SceneSwitch<Self>) {
        if self.done {
            SceneSwitch::Pop
        } else {
            SceneSwitch::Stay
        }
    }

    fn draw(&self, ctx: &mut Host) {
        ctx.canvas.push(Paint::Clear(Color::Black));
        self.draw_text(&mut ctx.canvas, "Tetris", [64, 430], 40, Color::Red);
        self.draw_text(&mut ctx.canvas, "Press Enter Key", [64, 580], 18, Color::White);
        ctx.canvas.push(Paint::Image { path: "/logo.png", x: 0, y: 0, percent: 100 });
        assert(ctx@.canvas =~= old(ctx)@.canvas + Self::picture());
    }

    fn input(&mut self, _ctx: &mut Host, event: Key) {
        if let Key::Return = event {
            self.done = true;
        }
    }

    fn name(&self) -> (name: &'static str) {
        "start"
    }

    /// The scene covers the screen: nothing beneath it is drawn.
    fn draw_previous(&self) -> (beneath: bool) {
        false
    }
}

} // verus!
