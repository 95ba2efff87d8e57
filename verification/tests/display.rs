use lcd_panels::display::{
    draw_buffer_len, flush_wait_step, flush_window, line_height, next_loop_action, BitmapWindow,
    FlushArea, FlushWait, LoopAction, TimerPeriod, HOR_RES, VER_RES,
};

#[test]
fn draw_buffer_of_the_display() {
    assert_eq!(line_height(VER_RES), 32);
    assert_eq!(draw_buffer_len(HOR_RES, line_height(VER_RES), 16), 46080);
    assert_eq!(draw_buffer_len(800, 12, 24), 28800);
    assert_eq!(line_height(39), 0);
}

#[test]
fn flush_window_ends_past_the_area() {
    let w = flush_window(&FlushArea { x: 10, y: 20, width: 5, height: 7 });
    assert_eq!(w, BitmapWindow { x_start: 10, y_start: 20, x_end: 15, y_end: 27 });
}

#[test]
fn flush_window_of_one_pixel() {
    let w = flush_window(&FlushArea { x: 0, y: 0, width: 1, height: 1 });
    assert_eq!(w, BitmapWindow { x_start: 0, y_start: 0, x_end: 1, y_end: 1 });
}

#[test]
fn flush_window_full_screen() {
    let w = flush_window(&FlushArea { x: 0, y: 0, width: HOR_RES, height: 32 });
    assert_eq!(w.x_end - w.x_start, 720);
    assert_eq!(w.y_end - w.y_start, 32);
}

#[test]
fn flush_window_negative_origin() {
    let w = flush_window(&FlushArea { x: -4, y: -1, width: 4, height: 2 });
    assert_eq!(w, BitmapWindow { x_start: -4, y_start: -1, x_end: 0, y_end: 1 });
}

#[test]
fn flush_window_at_the_edge_of_i32() {
    let w = flush_window(&FlushArea { x: i32::MAX - 3, y: 0, width: 3, height: 1 });
    assert_eq!(w.x_end, i32::MAX);
}

#[test]
fn flush_waits_for_the_transfer() {
    assert_eq!(flush_wait_step(false), FlushWait::Yield);
    assert_eq!(flush_wait_step(true), FlushWait::ClearAndReturn);
}

#[test]
fn loop_actions() {
    assert_eq!(next_loop_action(TimerPeriod::Ready, 16), LoopAction::RunAgain);
    assert_eq!(next_loop_action(TimerPeriod::AfterMs(5), 16), LoopAction::DelayUntil(5));
    assert_eq!(next_loop_action(TimerPeriod::Never, 16), LoopAction::Delay(16));
}
