use tetris::game::{GameScene, MainState};
use tetris::host::{Host, Key, Paint, Request};
use tetris::scene::{Scene, SceneStack, SceneSwitch};
use tetris::states::over::OverScene;
use tetris::states::play::PlayScene;
use tetris::states::start::StartScene;
use tetris::utils::Color;

/// A scene that writes its number down when it is drawn, and asks for what
/// it was told to ask for when it is updated.
#[derive(Clone, Debug, PartialEq)]
struct Sheet {
    number: u8,
    layered: bool,
    keys: u8,
    ask: Ask,
}

#[derive(Clone, Debug, PartialEq)]
enum Ask {
    Stay,
    Pop,
    Push(u8),
    Replace(u8),
}

fn sheet(number: u8, layered: bool) -> Sheet {
    Sheet { number, layered, keys: 0, ask: Ask::Stay }
}

impl Scene for Sheet {
    type Context = Vec<u8>;
    type Event = u8;

    fn update(&mut self, ctx: &mut Vec<u8>) -> SceneSwitch<Self> {
        ctx.push(100 + self.number);
        match self.ask {
            Ask::Stay => SceneSwitch::Stay,
            Ask::Pop => SceneSwitch::Pop,
            Ask::Push(number) => SceneSwitch::Push(sheet(number, false)),
            Ask::Replace(number) => SceneSwitch::Replace(sheet(number, false)),
        }
    }

    fn draw(&self, ctx: &mut Vec<u8>) {
        ctx.push(self.number);
    }

    fn input(&mut self, _ctx: &mut Vec<u8>, event: u8) {
        self.keys += event;
    }

    fn name(&self) -> &'static str {
        "sheet"
    }

    fn draw_previous(&self) -> bool {
        self.layered
    }

    fn label(self) -> &'static str {
        "sheet"
    }

    fn layered(self) -> bool {
        self.layered
    }
}

fn stack_of(sheets: Vec<Sheet>) -> SceneStack<Sheet> {
    let mut stack = SceneStack::new();
    for sheet in sheets {
        stack.push(sheet);
    }
    stack
}

fn drawn(sheets: Vec<Sheet>) -> Vec<u8> {
    let stack = stack_of(sheets);
    let mut ctx = Vec::new();
    stack.draw(&mut ctx);
    ctx
}

#[test]
fn new_stack_is_empty() {
    let stack: SceneStack<Sheet> = SceneStack::new();
    assert!(stack.is_empty());
    assert_eq!(stack.len(), 0);
    assert!(stack.current().is_none());
}

#[test]
fn push_puts_the_scene_on_top() {
    let mut stack = SceneStack::new();
    stack.push(sheet(1, false));
    assert_eq!(stack.current(), Some(&sheet(1, false)));
    stack.push(sheet(2, false));
    assert_eq!(stack.current(), Some(&sheet(2, false)));
    assert_eq!(stack.len(), 2);
    assert!(!stack.is_empty());
    assert_eq!(stack.scenes, vec![sheet(1, false), sheet(2, false)]);
}

#[test]
fn pop_takes_the_topmost_scene() {
    let mut stack = stack_of(vec![sheet(1, false), sheet(2, false)]);
    assert_eq!(stack.pop(), Some(sheet(2, false)));
    assert_eq!(stack.pop(), Some(sheet(1, false)));
    assert!(stack.is_empty());
}

#[test]
fn pop_of_empty_stack_is_nothing() {
    let mut stack: SceneStack<Sheet> = SceneStack::new();
    assert_eq!(stack.pop(), None);
    assert!(stack.is_empty());
}

#[test]
fn switch_stay_changes_nothing() {
    let mut stack = stack_of(vec![sheet(1, false), sheet(2, false)]);
    assert_eq!(stack.switch(SceneSwitch::Stay), None);
    assert_eq!(stack.scenes, vec![sheet(1, false), sheet(2, false)]);
}

#[test]
fn switch_push_adds_above() {
    let mut stack = stack_of(vec![sheet(1, false)]);
    assert_eq!(stack.switch(SceneSwitch::Push(sheet(2, true))), None);
    assert_eq!(stack.scenes, vec![sheet(1, false), sheet(2, true)]);
}

#[test]
fn switch_pop_removes_the_topmost() {
    let mut stack = stack_of(vec![sheet(1, false), sheet(2, false)]);
    assert_eq!(stack.switch(SceneSwitch::Pop), Some(sheet(2, false)));
    assert_eq!(stack.scenes, vec![sheet(1, false)]);
}

#[test]
fn switch_replace_swaps_the_topmost() {
    let mut stack = stack_of(vec![sheet(1, false), sheet(2, false)]);
    assert_eq!(stack.switch(SceneSwitch::Replace(sheet(3, false))), Some(sheet(2, false)));
    assert_eq!(stack.scenes, vec![sheet(1, false), sheet(3, false)]);
}

#[test]
fn switch_on_empty_stack_is_guarded() {
    let mut stack: SceneStack<Sheet> = SceneStack::new();
    assert_eq!(stack.switch(SceneSwitch::Pop), None);
    assert!(stack.is_empty());
    assert_eq!(stack.switch(SceneSwitch::Replace(sheet(3, false))), None);
    assert_eq!(stack.scenes, vec![sheet(3, false)]);
}

#[test]
fn draw_of_plain_top_draws_one_scene() {
    assert_eq!(drawn(vec![sheet(1, true), sheet(2, true), sheet(3, false)]), vec![3]);
    assert_eq!(drawn(vec![sheet(1, false)]), vec![1]);
}

#[test]
fn draw_goes_down_to_the_first_plain_scene() {
    assert_eq!(drawn(vec![sheet(1, true), sheet(2, false), sheet(3, true)]), vec![3, 2]);
    assert_eq!(
        drawn(vec![sheet(1, false), sheet(2, false), sheet(3, true), sheet(4, true)]),
        vec![4, 3, 2]
    );
}

#[test]
fn draw_stops_at_the_bottom() {
    assert_eq!(drawn(vec![sheet(1, true), sheet(2, true), sheet(3, true)]), vec![3, 2, 1]);
    assert_eq!(drawn(vec![sheet(1, true)]), vec![1]);
}

#[test]
fn draw_of_empty_stack_draws_nothing() {
    assert_eq!(drawn(Vec::new()), Vec::<u8>::new());
}

#[test]
fn draw_leaves_the_stack_as_it_is() {
    let stack = stack_of(vec![sheet(1, true), sheet(2, true)]);
    let mut ctx = vec![9];
    stack.draw(&mut ctx);
    assert_eq!(ctx, vec![9, 2, 1]);
    assert_eq!(stack.scenes, vec![sheet(1, true), sheet(2, true)]);
}

#[test]
fn update_reaches_the_topmost_scene_only() {
    let mut stack = stack_of(vec![sheet(1, false), sheet(2, false)]);
    let mut ctx = Vec::new();
    stack.update(&mut ctx);
    assert_eq!(ctx, vec![102]);
    assert_eq!(stack.scenes, vec![sheet(1, false), sheet(2, false)]);
}

#[test]
fn update_does_what_the_scene_asks() {
    let mut top = sheet(2, false);
    top.ask = Ask::Pop;
    let mut stack = stack_of(vec![sheet(1, false), top.clone()]);
    let mut ctx = Vec::new();
    stack.update(&mut ctx);
    assert_eq!(stack.scenes, vec![sheet(1, false)]);

    top.ask = Ask::Push(7);
    let mut stack = stack_of(vec![sheet(1, false), top.clone()]);
    stack.update(&mut ctx);
    assert_eq!(stack.scenes, vec![sheet(1, false), top.clone(), sheet(7, false)]);

    top.ask = Ask::Replace(8);
    let mut stack = stack_of(vec![sheet(1, false), top]);
    stack.update(&mut ctx);
    assert_eq!(stack.scenes, vec![sheet(1, false), sheet(8, false)]);
    assert_eq!(ctx, vec![102, 102, 102]);
}

#[test]
fn update_of_empty_stack_does_nothing() {
    let mut stack: SceneStack<Sheet> = SceneStack::new();
    let mut ctx = vec![5];
    stack.update(&mut ctx);
    assert!(stack.is_empty());
    assert_eq!(ctx, vec![5]);
}

#[test]
fn input_reaches_the_topmost_scene_only() {
    let mut stack = stack_of(vec![sheet(1, false), sheet(2, false)]);
    let mut ctx = Vec::new();
    stack.input(&mut ctx, 3);
    stack.input(&mut ctx, 4);
    let mut top = sheet(2, false);
    top.keys = 7;
    assert_eq!(stack.scenes, vec![sheet(1, false), top]);
    assert!(ctx.is_empty());
}

#[test]
fn input_of_empty_stack_does_nothing() {
    let mut stack: SceneStack<Sheet> = SceneStack::new();
    let mut ctx = Vec::new();
    stack.input(&mut ctx, 3);
    assert!(stack.is_empty());
}

fn top_name(stack: &SceneStack<GameScene>) -> &'static str {
    stack.current().unwrap().name()
}

#[test]
fn game_begins_with_over_play_start() {
    let mut host = Host::new(None, false);
    let state = MainState::new(&mut host);
    assert_eq!(state.stack.len(), 3);
    assert_eq!(state.stack.scenes[0], GameScene::Over(OverScene { done: false }));
    assert_eq!(state.stack.scenes[2], GameScene::Start(StartScene { done: false }));
    assert_eq!(state.stack.scenes[0].name(), "over");
    assert_eq!(state.stack.scenes[1].name(), "play");
    assert_eq!(state.stack.scenes[2].name(), "start");
    assert_eq!(top_name(&state.stack), "start");
    assert_eq!(host.requests, vec![Request::Fetch]);
    assert!(host.canvas.is_empty());
}

#[test]
fn pops_lead_from_start_through_play_and_over_to_the_end() {
    let mut host = Host::new(None, false);
    let mut state = MainState::new(&mut host);
    assert_eq!(top_name(&state.stack), "start");
    assert!(matches!(state.stack.switch(SceneSwitch::Pop), Some(GameScene::Start(_))));
    assert_eq!(top_name(&state.stack), "play");
    assert!(matches!(state.stack.switch(SceneSwitch::Pop), Some(GameScene::Play(_))));
    assert_eq!(top_name(&state.stack), "over");
    assert!(matches!(state.stack.switch(SceneSwitch::Pop), Some(GameScene::Over(_))));
    assert!(state.stack.is_empty());
    assert!(state.stack.current().is_none());
}

#[test]
fn return_key_leads_through_the_scenes() {
    let mut host = Host::new(None, false);
    let mut state = MainState::new(&mut host);

    // Without a key the start screen stays.
    state.update(&mut host);
    assert_eq!(top_name(&state.stack), "start");
    state.key_up_event(&mut host, Key::Left);
    state.update(&mut host);
    assert_eq!(top_name(&state.stack), "start");

    state.key_up_event(&mut host, Key::Return);
    assert_eq!(top_name(&state.stack), "start");
    state.update(&mut host);
    assert_eq!(top_name(&state.stack), "play");

    state.update(&mut host);
    assert_eq!(top_name(&state.stack), "play");
    state.key_up_event(&mut host, Key::Return);
    state.update(&mut host);
    assert_eq!(top_name(&state.stack), "over");

    state.update(&mut host);
    assert_eq!(top_name(&state.stack), "over");
    assert!(!host.requests.contains(&Request::Quit));
    state.key_up_event(&mut host, Key::Return);
    state.update(&mut host);
    assert!(state.stack.is_empty());
    assert_eq!(host.requests.last(), Some(&Request::Quit));

    // With no scene left a tick, a frame and a key do nothing.
    let requests = host.requests.clone();
    let canvas = host.canvas.clone();
    state.update(&mut host);
    state.draw(&mut host);
    state.key_up_event(&mut host, Key::Return);
    assert!(state.stack.is_empty());
    assert_eq!(host.requests, requests);
    assert_eq!(host.canvas, canvas);
}

#[test]
fn keys_reach_the_topmost_scene_only() {
    let mut host = Host::new(None, false);
    let mut state = MainState::new(&mut host);
    state.key_up_event(&mut host, Key::Return);
    assert_eq!(state.stack.scenes[0], GameScene::Over(OverScene { done: false }));
    assert_eq!(state.stack.scenes[2], GameScene::Start(StartScene { done: true }));
    match state.stack.scenes[1] {
        GameScene::Play(round) => assert!(!round.done),
        _ => panic!("the round is the second scene"),
    }
}

#[test]
fn game_draws_the_topmost_scene_alone() {
    let mut host = Host::new(None, false);
    let state = MainState::new(&mut host);
    state.draw(&mut host);
    let mut alone = Host::new(None, false);
    StartScene { done: false }.draw(&mut alone);
    assert_eq!(host.canvas, alone.canvas);
    assert_eq!(host.canvas.len(), 4);
}

#[test]
fn start_scene_waits_for_return() {
    let mut host = Host::new(Some(3), true);
    let mut scene = StartScene::new(&mut host);
    assert!(!scene.done);
    assert!(matches!(scene.update(&mut host), SceneSwitch::Stay));
    for key in [Key::Left, Key::Right, Key::Up, Key::Down, Key::P, Key::Other] {
        scene.input(&mut host, key);
        assert!(!scene.done);
    }
    scene.input(&mut host, Key::Return);
    assert!(scene.done);
    assert!(matches!(scene.update(&mut host), SceneSwitch::Pop));
    scene.input(&mut host, Key::Left);
    assert!(scene.done);
    assert_eq!(host.inbox, Some(3));
    assert!(host.requests.is_empty());
    assert!(host.canvas.is_empty());
}

#[test]
fn start_scene_shows_title_prompt_and_logo() {
    let mut host = Host::new(None, false);
    let scene = StartScene::new(&mut host);
    scene.draw(&mut host);
    assert_eq!(
        host.canvas,
        vec![
            Paint::Clear(Color::Black),
            Paint::Text { text: "Tetris", x: 64, y: 430, scale: 40, color: Color::Red },
            Paint::Text { text: "Press Enter Key", x: 64, y: 580, scale: 18, color: Color::White },
            Paint::Image { path: "/logo.png", x: 0, y: 0, percent: 100 },
        ]
    );
    assert!(host.requests.is_empty());
    assert_eq!(scene.name(), "start");
    assert!(!scene.draw_previous());
}

#[test]
fn over_scene_quits_on_return() {
    let mut host = Host::new(None, false);
    let mut scene = OverScene::new(&mut host);
    assert!(matches!(scene.update(&mut host), SceneSwitch::Stay));
    assert!(host.requests.is_empty());
    scene.input(&mut host, Key::P);
    assert!(!scene.done);
    scene.input(&mut host, Key::Return);
    assert!(scene.done);
    assert!(matches!(scene.update(&mut host), SceneSwitch::Pop));
    assert_eq!(host.requests, vec![Request::Quit]);
}

#[test]
fn over_scene_shows_verdict_prompt_and_picture() {
    let mut host = Host::new(None, false);
    let scene = OverScene::new(&mut host);
    scene.draw(&mut host);
    assert_eq!(
        host.canvas,
        vec![
            Paint::Clear(Color::Black),
            Paint::Text { text: "You Lose!", x: 64, y: 430, scale: 32, color: Color::Red },
            Paint::Text {
                text: "Press Enter To Exit",
                x: 32,
                y: 550,
                scale: 18,
                color: Color::White
            },
            Paint::Image { path: "/over.png", x: 32, y: 32, percent: 80 },
        ]
    );
    assert_eq!(scene.name(), "over");
    assert!(!scene.draw_previous());
}

#[test]
fn game_scene_does_as_the_scene_it_holds() {
    let mut host = Host::new(None, false);
    let mut scene = GameScene::Start(StartScene { done: true });
    assert!(matches!(scene.update(&mut host), SceneSwitch::Pop));
    assert_eq!(scene.name(), "start");
    let mut scene = GameScene::Over(OverScene { done: false });
    assert!(matches!(scene.update(&mut host), SceneSwitch::Stay));
    scene.input(&mut host, Key::Return);
    assert_eq!(scene, GameScene::Over(OverScene { done: true }));
    let scene = GameScene::Play(PlayScene::new(&mut host));
    assert_eq!(scene.name(), "play");
    assert!(!scene.draw_previous());
}
