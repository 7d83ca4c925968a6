//! The game as a whole: its three scenes on one stack.

use vstd::prelude::*;
use crate::host::{Host, HostView, Key, Request};
use crate::scene::{Scene, SceneStack, SceneSwitch, paints, switched};
use crate::states::over::OverScene;
use crate::states::play::PlayScene;
use crate::states::start::StartScene;

verus! {

/// How many ticks the game makes in a second.
pub const TICKS_PER_SECOND: u32 = 8;

/// Any one of the scenes of the game.
#[derive(Clone, Copy, Debug, PartialEq, Eq)]
pub enum GameScene {
    Start(StartScene),
    Play(PlayScene),
    Over(OverScene),
}

/// What the switch `switch` of an inner scene asks of a stack of game
/// scenes, where `wrap` makes a game scene of an inner scene.
pub open spec fn lifted<A>(switch: SceneSwitch<A>, wrap: spec_fn(A) -> GameScene) -> SceneSwitch<
    GameScene,
> {
    match switch {
        SceneSwitch::Stay => SceneSwitch::Stay,
        SceneSwitch::Push(scene) => SceneSwitch::Push(wrap(scene)),
        SceneSwitch::Replace(scene) => SceneSwitch::Replace(wrap(scene)),
        SceneSwitch::Pop => SceneSwitch::Pop,
    }
}

impl Scene for GameScene {
    type Context = Host;

    type Event = Key;

    /// A game scene is updated as the scene that it holds.
    open spec fn updates(
        before: Self,
        host: Host,
        after: Self,
        left: Host,
        switch: SceneSwitch<Self>,
    ) -> bool {
        match before {
            GameScene::Start(scene) => exists|next: StartScene, inner: SceneSwitch<StartScene>|
                #![trigger StartScene::updates(scene, host, next, left, inner)]
                StartScene::updates(scene, host, next, left, inner) && after == GameScene::Start(
                    next,
                ) && switch == lifted(inner, |s: StartScene| GameScene::Start(s)),
            GameScene::Play(scene) => exists|next: PlayScene, inner: SceneSwitch<PlayScene>|
                #![trigger PlayScene::updates(scene, host, next, left, inner)]
                PlayScene::updates(scene, host, next, left, inner) && after == GameScene::Play(next)
                    && switch == lifted(inner, |s: PlayScene| GameScene::Play(s)),
            GameScene::Over(scene) => exists|next: OverScene, inner: SceneSwitch<OverScene>|
                #![trigger OverScene::updates(scene, host, next, left, inner)]
                OverScene::updates(scene, host, next, left, inner) && after == GameScene::Over(next)
                    && switch == lifted(inner, |s: OverScene| GameScene::Over(s)),
        }
    }

    /// A game scene is drawn as the scene that it holds.
    open spec fn draws(self, host: Host, left: Host) -> bool {
        match self {
            GameScene::Start(scene) => scene.draws(host, left),
            GameScene::Play(scene) => scene.draws(host, left),
            GameScene::Over(scene) => scene.draws(host, left),
        }
    }

    /// A game scene takes a key as the scene that it holds.
    open spec fn handles(before: Self, host: Host, event: Key, after: Self, left: Host) -> bool {
        match before {
            GameScene::Start(scene) => exists|next: StartScene|
                #![trigger StartScene::handles(scene, host, event, next, left)]
                StartScene::handles(scene, host, event, next, left) && after == GameScene::Start(
                    next,
                ),
            GameScene::Play(scene) => exists|next: PlayScene|
                #![trigger PlayScene::handles(scene, host, event, next, left)]
                PlayScene::handles(scene, host, event, next, left) && after == GameScene::Play(next),
            GameScene::Over(scene) => exists|next: OverScene|
                #![trigger OverScene::handles(scene, host, event, next, left)]
                OverScene::handles(scene, host, event, next, left) && after == GameScene::Over(next),
        }
    }

    /// A game scene has the name of the scene that it holds.
    open spec fn label(self) -> &'static str {
        match self {
            GameScene::Start(scene) => scene.label(),
            GameScene::Play(scene) => scene.label(),
            GameScene::Over(scene) => scene.label(),
        }
    }

    open spec fn layered(self) -> bool {
        match self {
            GameScene::Start(scene) => scene.layered(),
            GameScene::Play(scene) => scene.layered(),
            GameScene::Over(scene) => scene.layered(),
        }
    }

    fn update(&mut self, ctx: &mut Host) -> (switch: SceneSwitch<Self>) {
        match self {
            GameScene::Start(scene) => {
                let inner = scene.update(ctx);
                match inner {
                    SceneSwitch::Stay => SceneSwitch::Stay,
                    SceneSwitch::Push(next) => SceneSwitch::Push(GameScene::Start(next)),
                    SceneSwitch::Replace(next) => SceneSwitch::Replace(GameScene::Start(next)),
                    SceneSwitch::Pop => SceneSwitch::Pop,
                }
            },
            GameScene::Play(scene) => {
                let inner = scene.update(ctx);
                match inner {
                    SceneSwitch::Stay => SceneSwitch::Stay,
                    SceneSwitch::Push(next) => SceneSwitch::Push(GameScene::Play(next)),
                    SceneSwitch::Replace(next) => SceneSwitch::Replace(GameScene::Play(next)),
                    SceneSwitch::Pop => SceneSwitch::Pop,
                }
            },
            GameScene::Over(scene) => {
                let inner = scene.update(ctx);
                match inner {
                    SceneSwitch::Stay => SceneSwitch::Stay,
                    SceneSwitch::Push(next) => SceneSwitch::Push(GameScene::Over(next)),
                    SceneSwitch::Replace(next) => SceneSwitch::Replace(GameScene::Over(next)),
                    SceneSwitch::Pop => SceneSwitch::Pop,
                }
            },
        }
    }

    fn draw(&self, ctx: &mut Host) {
        match self {
            GameScene::Start(scene) => scene.draw(ctx),
            GameScene::Play(scene) => scene.draw(ctx),
            GameScene::Over(scene) => scene.draw(ctx),
        }
    }

    fn input(&mut self, ctx: &mut Host, event: Key) {
        match self {
            GameScene::Start(scene) => scene.input(ctx, event),
            GameScene::Play(scene) => scene.input(ctx, event),
            GameScene::Over(scene) => scene.input(ctx, event),
        }
    }

    fn name(&self) -> (name: &'static str) {
        match self {
            GameScene::Start(scene) => scene.name(),
            GameScene::Play(scene) => scene.name(),
            GameScene::Over(scene) => scene.name(),
        }
    }

    fn draw_previous(&self) -> (beneath: bool) {
        match self {
            GameScene::Start(scene) => scene.draw_previous(),
            GameScene::Play(scene) => scene.draw_previous(),
            GameScene::Over(scene) => scene.draw_previous(),
        }
    }
}

/// The game: the stack of its scenes.
pub struct MainState {
    pub stack: SceneStack<GameScene>,
}

impl MainState {
    /// Whether `scenes` is the stack with which a game begins: the
    /// game-over screen at the bottom, a round that has not begun above it,
    /// and the start screen on top.
    pub open spec fn opening(scenes: Seq<GameScene>) -> bool {
        &&& scenes.len() == 3
        &&& scenes[0] == GameScene::Over(OverScene { done: false })
        &&& scenes[1] matches GameScene::Play(round) && round.fresh()
        &&& scenes[2] == GameScene::Start(StartScene { done: false })
    }

    /// A game at its beginning. The round asks the host for the stored
    /// record.
    pub fn new(ctx: &mut Host) -> (state: Self)
        ensures
            Self::opening(state.stack@),
            final(ctx)@ == (HostView {
                requests: old(ctx)@.requests.push(Request::Fetch),
                ..old(ctx)@
            }),
    {
        let mut stack: SceneStack<GameScene> = SceneStack::new();
        stack.push(GameScene::Over(OverScene::new(ctx)));
        stack.push(GameScene::Play(PlayScene::new(ctx)));
        stack.push(GameScene::Start(StartScene::new(ctx)));
        Self { stack }
    }

    /// One tick: the topmost scene is updated, and the stack does what that
    /// scene asks for. With no scene left nothing happens.
    pub fn update(&mut self, ctx: &mut Host)
        ensures
            old(self).stack@.len() == 0 ==> final(self).stack@ == old(self).stack@ && *final(ctx)
                == *old(ctx),
            old(self).stack@.len() > 0 ==> exists|top: GameScene, switch: SceneSwitch<GameScene>|
                #![trigger GameScene::updates(old(self).stack@.last(), *old(ctx), top, *final(ctx), switch)]
                GameScene::updates(old(self).stack@.last(), *old(ctx), top, *final(ctx), switch)
                    && final(self).stack@ == switched(
                    old(self).stack@.drop_last().push(top),
                    switch,
                ),
    {
        self.stack.update(ctx);
    }

    /// One frame: the scenes are drawn from the topmost down.
    pub fn draw(&self, ctx: &mut Host)
        ensures
            paints(self.stack@, *old(ctx), *final(ctx)),
    {
        self.stack.draw(ctx);
    }

    /// A key was released: the topmost scene is told.
    pub fn key_up_event(&mut self, ctx: &mut Host, input: Key)
        ensures
            old(self).stack@.len() == 0 ==> final(self).stack@ == old(self).stack@ && *final(ctx)
                == *old(ctx),
            old(self).stack@.len() > 0 ==> exists|top: GameScene|
                #![trigger GameScene::handles(old(self).stack@.last(), *old(ctx), input, top, *final(ctx))]
                GameScene::handles(old(self).stack@.last(), *old(ctx), input, top, *final(ctx))
                    && final(self).stack@ == old(self).stack@.drop_last().push(top),
    {
        self.stack.input(ctx, input);
    }
}

} // verus!
