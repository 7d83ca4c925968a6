use tetris::game::TICKS_PER_SECOND;
use tetris::host::{caption, Paint};
use tetris::states::start::StartScene;
use tetris::utils::{Color, DrawableText};

#[test]
fn caption_writes_four_figures_at_least() {
    assert_eq!(caption("score", 42), "score 0042");
    assert_eq!(caption("record", 0), "record 0000");
    assert_eq!(caption("score", 7), "score 0007");
    assert_eq!(caption("score", 130), "score 0130");
    assert_eq!(caption("score", 9999), "score 9999");
}

#[test]
fn caption_writes_five_figures_where_there_are_five() {
    assert_eq!(caption("score", 10000), "score 10000");
    assert_eq!(caption("score", 65535), "score 65535");
    assert_eq!(caption("score", 40302), "score 40302");
}

#[test]
fn caption_of_empty_label_begins_with_the_space() {
    assert_eq!(caption("", 5), " 0005");
}

#[test]
fn caption_agrees_with_the_padding_of_the_formatter() {
    for value in 0..=u16::MAX {
        assert_eq!(caption("record", value), format!("record {:0>4}", value));
    }
}

#[test]
fn draw_text_adds_one_line_of_text() {
    let scene = StartScene { done: false };
    let mut canvas = vec![Paint::Clear(Color::Black)];
    scene.draw_text(&mut canvas, "hello", [3, 4], 12, Color::Yellow);
    assert_eq!(
        canvas,
        vec![
            Paint::Clear(Color::Black),
            Paint::Text { text: "hello", x: 3, y: 4, scale: 12, color: Color::Yellow },
        ]
    );
}

#[test]
fn game_ticks_eight_times_a_second() {
    assert_eq!(TICKS_PER_SECOND, 8);
}
