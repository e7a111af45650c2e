use rpg_core::ui::terminal::style::Color;
use rpg_core::ui::terminal::terminal_util::{
    clear_frame, create_render_state, refresh_back_buffer, take_changes, Change, DrawInfo,
    RenderState, ScreenBuffer, Terminal, MIN_HEIGHT, MIN_WIDTH,
};

fn blank() -> DrawInfo {
    DrawInfo { background: Color::Black, color: Color::White, icon: ' ' }
}

fn state(width: u16, height: u16) -> RenderState {
    match create_render_state(Terminal { width, height }) {
        Ok(state) => state,
        Err(error) => panic!("{}", error.to_string()),
    }
}

#[test]
fn a_terminal_needs_eighty_columns() {
    let error = create_render_state(Terminal { width: 79, height: 24 }).err().unwrap();
    assert_eq!(
        error.to_string(),
        "Terminal width of 79 is below the minimum of 80 characters"
    );
    let error = create_render_state(Terminal { width: 0, height: 0 }).err().unwrap();
    assert_eq!(
        error.to_string(),
        "Terminal width of 0 is below the minimum of 80 characters"
    );
    assert_eq!(MIN_WIDTH, 80);
}

#[test]
fn a_terminal_needs_twenty_four_lines() {
    let error = create_render_state(Terminal { width: 80, height: 23 }).err().unwrap();
    assert_eq!(
        error.to_string(),
        "Terminal height of 23 is below the minimum of 24 characters"
    );
    let error = create_render_state(Terminal { width: 200, height: 5 }).err().unwrap();
    assert_eq!(
        error.to_string(),
        "Terminal height of 5 is below the minimum of 24 characters"
    );
    assert_eq!(MIN_HEIGHT, 24);
}

#[test]
fn the_first_frame_is_drawn_in_full() {
    let mut state = state(80, 24);
    assert_eq!(state.screen.width, 80);
    assert_eq!(state.screen.height, 24);
    let changed = take_changes(&mut state);
    assert_eq!(changed.len(), 0);
    refresh_back_buffer(&mut state);
    let changed = take_changes(&mut state);
    assert_eq!(changed.len(), 1920);
    assert_eq!(changed[0], Change { x: 0, y: 0, draw_info: blank() });
    assert_eq!(changed[81], Change { x: 1, y: 1, draw_info: blank() });
    assert_eq!(changed[1919], Change { x: 79, y: 23, draw_info: blank() });
    assert_eq!(take_changes(&mut state).len(), 0);
}

#[test]
fn only_what_has_changed_is_drawn_again() {
    let mut state = state(80, 24);
    assert!(state.can_draw(3, 2));
    state.set_icon(3, 2, '@');
    state.set_color(3, 2, Color::Yellow);
    state.set_icon(79, 23, '#');
    let changed = take_changes(&mut state);
    assert_eq!(
        changed,
        vec![
            Change {
                x: 3,
                y: 2,
                draw_info: DrawInfo { background: Color::Black, color: Color::Yellow, icon: '@' }
            },
            Change {
                x: 79,
                y: 23,
                draw_info: DrawInfo { background: Color::Black, color: Color::White, icon: '#' }
            },
        ]
    );
    assert_eq!(take_changes(&mut state).len(), 0);
    state.set_icon(3, 2, '@');
    assert_eq!(take_changes(&mut state).len(), 0);
    state.set_icon(3, 2, '.');
    assert_eq!(take_changes(&mut state).len(), 1);
}

#[test]
fn a_background_that_changed_is_drawn_again_each_time() {
    let mut state = state(80, 24);
    state.set_background(5, 5, Color::Blue);
    let expected = vec![Change {
        x: 5,
        y: 5,
        draw_info: DrawInfo { background: Color::Blue, color: Color::White, icon: ' ' },
    }];
    assert_eq!(take_changes(&mut state), expected);
    assert_eq!(take_changes(&mut state), expected);
}

#[test]
fn clearing_a_frame_empties_every_cell() {
    let mut state = state(80, 24);
    state.set_icon(1, 1, 'x');
    state.set_color(2, 1, Color::Red);
    assert_eq!(take_changes(&mut state).len(), 2);
    clear_frame(&mut state);
    let changed = take_changes(&mut state);
    assert_eq!(
        changed,
        vec![
            Change { x: 1, y: 1, draw_info: blank() },
            Change { x: 2, y: 1, draw_info: blank() }
        ]
    );
}

#[test]
fn a_refresh_takes_the_backgrounds_back() {
    let mut state = state(80, 24);
    state.set_background(0, 0, Color::Green);
    state.set_icon(0, 0, 'a');
    refresh_back_buffer(&mut state);
    let changed = take_changes(&mut state);
    assert_eq!(changed.len(), 1920);
    assert_eq!(
        changed[0],
        Change {
            x: 0,
            y: 0,
            draw_info: DrawInfo { background: Color::Black, color: Color::White, icon: 'a' }
        }
    );
    assert_eq!(take_changes(&mut state).len(), 0);
}

#[test]
fn cells_are_found_by_row_and_column() {
    let mut buffer = ScreenBuffer::new(10, 4);
    assert!(buffer.can_hold(0, 0));
    assert!(buffer.can_hold(9, 3));
    assert!(buffer.can_hold(19, 2));
    assert!(!buffer.can_hold(0, 4));
    assert!(!buffer.can_hold(10, 3));
    assert!(!buffer.can_hold(65535, 65535));
    buffer.set_icon(9, 3, 'z');
    buffer.set_color(0, 0, Color::Cyan);
    buffer.set_background(19, 2, Color::Grey);
    let empty = ScreenBuffer::new(0, 0);
    assert!(!empty.can_hold(0, 0));
    let state = state(100, 30);
    assert!(state.can_draw(99, 29));
    assert!(!state.can_draw(0, 30));
}
