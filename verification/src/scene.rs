//! Scenes and the stack that runs them.

use vstd::prelude::*;

verus! {

/// What a scene asks of the stack when it has been updated.
pub enum SceneSwitch<S> {
    /// Stay as it is.
    Stay,
    /// Put a scene on top.
    Push(S),
    /// Put a scene in the place of the topmost.
    Replace(S),
    /// Take the topmost scene off.
    Pop,
}

/// One phase of the program: it is updated at every tick, drawn at every
/// frame, and told of the keys.
pub trait Scene: Sized {
    /// What the scene sees of its host.
    type Context;

    /// What the scene is told of.
    type Event;

    /// Whether one update can take the scene from `before` to `after` and
    /// the host from `host` to `left`, and end with `switch`. A scene that
    /// does not say so can do anything.
    open spec fn updates(
        before: Self,
        host: Self::Context,
        after: Self,
        left: Self::Context,
        switch: SceneSwitch<Self>,
    ) -> bool {
        true
    }

    /// Whether drawing the scene takes the host from `host` to `left`.
    /// A scene that does not say so can draw anything.
    open spec fn draws(self, host: Self::Context, left: Self::Context) -> bool {
        true
    }

    /// Whether `event` can take the scene from `before` to `after` and the
    /// host from `host` to `left`. A scene that does not say so can do
    /// anything.
    open spec fn handles(
        before: Self,
        host: Self::Context,
        event: Self::Event,
        after: Self,
        left: Self::Context,
    ) -> bool {
        true
    }

    /// The name of the scene.
    spec fn label(self) -> &'static str;

    /// Whether the scene beneath this one is drawn as well.
    spec fn layered(self) -> bool;

    /// One tick of the scene; the result says what the stack is to do next.
    fn update(&mut self, ctx: &mut Self::Context) -> (switch: SceneSwitch<Self>)
        ensures
            Self::updates(*old(self), *old(ctx), *final(self), *final(ctx), switch),
    ;

    /// Draws the scene.
    fn draw(&self, ctx: &mut Self::Context)
        ensures
            self.draws(*old(ctx), *final(ctx)),
    ;

    /// Tells the scene of `event`.
    fn input(&mut self, ctx: &mut Self::Context, event: Self::Event)
        ensures
            Self::handles(*old(self), *old(ctx), event, *final(self), *final(ctx)),
    ;

    /// The name of the scene, for those who read logs.
    fn name(&self) -> (name: &'static str)
        ensures
            name == self.label(),
    ;

    /// Whether the scene beneath this one is to be drawn as well; a scene
    /// that covers only part of the screen says yes.
    fn draw_previous(&self) -> (beneath: bool)
        ensures
            beneath == self.layered(),
    ;
}

/// The stack `scenes`, its top last, after the switch `next`. There is
/// nothing to take off an empty stack.
pub open spec fn switched<S>(scenes: Seq<S>, next: SceneSwitch<S>) -> Seq<S> {
    match next {
        SceneSwitch::Stay => scenes,
        SceneSwitch::Push(scene) => scenes.push(scene),
        SceneSwitch::Replace(scene) => if scenes.len() > 0 {
            scenes.drop_last().push(scene)
        } else {
            scenes.push(scene)
        },
        SceneSwitch::Pop => if scenes.len() > 0 {
            scenes.drop_last()
        } else {
            scenes
        },
    }
}

/// The scene that the switch `next` takes off the stack `scenes`, if any.
pub open spec fn taken_off<S>(scenes: Seq<S>, next: SceneSwitch<S>) -> Option<S> {
    match next {
        SceneSwitch::Stay => None,
        SceneSwitch::Push(_) => None,
        SceneSwitch::Replace(_) => if scenes.len() > 0 {
            Some(scenes.last())
        } else {
            None
        },
        SceneSwitch::Pop => if scenes.len() > 0 {
            Some(scenes.last())
        } else {
            None
        },
    }
}

/// Whether drawing the stack `scenes` takes the host from `host` to `left`:
/// the topmost scene is drawn first, then the scene beneath it if the
/// topmost is layered, and so on down to the first scene that is not
/// layered, which is drawn too, or to the bottom.
pub open spec fn paints<S: Scene>(scenes: Seq<S>, host: S::Context, left: S::Context) -> bool
    decreases scenes.len(),
{
    if scenes.len() == 0 {
        left == host
    } else if scenes.last().layered() {
        exists|between: S::Context| #[trigger]
            scenes.last().draws(host, between) && paints(scenes.drop_last(), between, left)
    } else {
        scenes.last().draws(host, left)
    }
}

/// How many scenes of the stack `scenes` one drawing reaches.
pub open spec fn depth<S: Scene>(scenes: Seq<S>) -> nat
    decreases scenes.len(),
{
    if scenes.len() == 0 {
        0
    } else if scenes.last().layered() {
        1 + depth(scenes.drop_last())
    } else {
        1
    }
}

/// A stack of scenes. The last scene is the topmost: it alone is updated
/// and told of the keys.
pub struct SceneStack<S: Scene> {
    pub scenes: Vec<S>,
}

impl<S: Scene> View for SceneStack<S> {
    type V = Seq<S>;

    /// The scenes from the bottom of the stack to its top.
    open spec fn view(&self) -> Seq<S> {
        self.scenes@
    }
}

impl<S: Scene> SceneStack<S> {
    /// A stack with no scene.
    pub fn new() -> (stack: Self)
        ensures
            stack@ == Seq::<S>::empty(),
    {
        SceneStack { scenes: Vec::new() }
    }

    /// How many scenes the stack holds.
    pub fn len(&self) -> (n: usize)
        ensures
            n == self@.len(),
    {
        self.scenes.len()
    }

    /// Whether the stack holds no scene.
    pub fn is_empty(&self) -> (empty: bool)
        ensures
            empty == (self@.len() == 0),
    {
        self.scenes.len() == 0
    }

    /// Puts `scene` on top.
    pub fn push(&mut self, scene: S)
        ensures
            final(self)@ == old(self)@.push(scene),
    {
        self.scenes.push(scene);
    }

    /// Takes the topmost scene off, if there is one.
    pub fn pop(&mut self) -> (scene: Option<S>)
        ensures
            final(self)@ == switched(old(self)@, SceneSwitch::Pop),
            scene == taken_off(old(self)@, SceneSwitch::Pop),
    {
        self.scenes.pop()
    }

    /// The topmost scene, if there is one.
    pub fn current(&self) -> (scene: Option<&S>)
        ensures
            self@.len() == 0 ==> scene.is_none(),
            self@.len() > 0 ==> scene == Some(&self@.last()),
    {
        let n = self.scenes.len();
        if n == 0 {
            None
        } else {
            Some(&self.scenes[n - 1])
        }
    }

    /// Does what `next` asks for, and returns the scene that left the stack.
    pub fn switch(&mut self, next: SceneSwitch<S>) -> (scene: Option<S>)
        ensures
            final(self)@ == switched(old(self)@, next),
            scene == taken_off(old(self)@, next),
    {
        match next {
            SceneSwitch::Stay => None,
            SceneSwitch::Push(scene) => {
                self.push(scene);
                None
            },
            SceneSwitch::Replace(scene) => {
                let gone = self.pop();
                self.push(scene);
                gone
            },
            SceneSwitch::Pop => self.pop(),
        }
    }

    /// Updates the topmost scene, and it alone, and then does what that
    /// scene asks for. An empty stack stays empty.
    pub fn update(&mut self, ctx: &mut S::Context)
        ensures
            old(self)@.len() == 0 ==> final(self)@ == old(self)@ && *final(ctx) == *old(ctx),
            old(self)@.len() > 0 ==> exists|top: S, switch: SceneSwitch<S>| #[trigger]
                S::updates(old(self)@.last(), *old(ctx), top, *final(ctx), switch) && final(self)@
                    == switched(old(self)@.drop_last().push(top), switch),
    {
        match self.scenes.pop() {
            None => {},
            Some(mut top) => {
                let ghost before = top;
                let switch = top.update(ctx);
                let ghost after = top;
                let ghost asked = switch;
                self.scenes.push(top);
                let _ = self.switch(switch);
                proof {
                    assert(before == old(self)@.last());
                    assert(S::updates(old(self)@.last(), *old(ctx), after, *ctx, asked));
                    assert(self@ == switched(old(self)@.drop_last().push(after), asked));
                }
            },
        }
    }

    /// Tells the topmost scene, and it alone, of `event`.
    pub fn input(&mut self, ctx: &mut S::Context, event: S::Event)
        ensures
            old(self)@.len() == 0 ==> final(self)@ == old(self)@ && *final(ctx) == *old(ctx),
            old(self)@.len() > 0 ==> exists|top: S| #[trigger]
                S::handles(old(self)@.last(), *old(ctx), event, top, *final(ctx)) && final(self)@
                    == old(self)@.drop_last().push(top),
    {
        match self.scenes.pop() {
            None => {},
            Some(mut top) => {
                let ghost before = top;
                top.input(ctx, event);
                let ghost after = top;
                self.scenes.push(top);
                proof {
                    assert(before == old(self)@.last());
                    assert(S::handles(old(self)@.last(), *old(ctx), event, after, *ctx));
                    assert(self@ == old(self)@.drop_last().push(after));
                }
            },
        }
    }

    /// Draws the topmost scene, then the scenes beneath it as long as the
    /// scene just drawn is layered.
    pub fn draw(&self, ctx: &mut S::Context)
        ensures
            paints(self@, *old(ctx), *final(ctx)),
    {
        let mut i: usize = self.scenes.len();
        let mut beneath: bool = true;
        assert(self@.subrange(0, i as int) =~= self@);
        while i > 0 && beneath
            invariant
                i <= self@.len(),
                !beneath ==> paints(self@, *old(ctx), *ctx),
                beneath ==> forall|left: S::Context| #[trigger]
                    paints(self@.subrange(0, i as int), *ctx, left) ==> paints(
                        self@,
                        *old(ctx),
                        left,
                    ),
            decreases i,
        {
            let ghost host = *ctx;
            let ghost upper = self@.subrange(0, i as int);
            i -= 1;
            beneath = self.scenes[i].draw_previous();
            self.scenes[i].draw(ctx);
            proof {
                assert(upper.last() == self@[i as int]);
                assert(upper.drop_last() =~= self@.subrange(0, i as int));
                if beneath {
                    assert forall|left: S::Context| #[trigger]
                        paints(self@.subrange(0, i as int), *ctx, left) implies paints(
                        self@,
                        *old(ctx),
                        left,
                    ) by {
                        assert(upper.last().draws(host, *ctx));
                        assert(paints(upper, host, left));
                    }
                } else {
                    assert(paints(upper, host, *ctx));
                }
            }
        }
        proof {
            if beneath {
                assert(self@.subrange(0, 0).len() == 0);
                assert(paints(self@.subrange(0, 0), *ctx, *ctx));
            }
        }
    }
}

/// A stack whose topmost scene is not layered is drawn by drawing that
/// scene and no other.
pub proof fn drawing_stops_at_plain_scene<S: Scene>(
    scenes: Seq<S>,
    host: S::Context,
    left: S::Context,
)
    requires
        scenes.len() > 0,
        !scenes.last().layered(),
    ensures
        depth(scenes) == 1,
        paints(scenes, host, left) == scenes.last().draws(host, left),
{
}

/// A stack whose topmost scene is layered is drawn by drawing that scene
/// and then the stack beneath it.
pub proof fn drawing_goes_on_beneath_layered_scene<S: Scene>(
    scenes: Seq<S>,
    host: S::Context,
    left: S::Context,
)
    requires
        scenes.len() > 0,
        scenes.last().layered(),
    ensures
        depth(scenes) == 1 + depth(scenes.drop_last()),
        paints(scenes, host, left) == (exists|between: S::Context| #[trigger]
            scenes.last().draws(host, between) && paints(scenes.drop_last(), between, left)),
{
}

} // verus!
