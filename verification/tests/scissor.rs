use glow_painter::command::Command;
use glow_painter::scissor::{check_target, scissor_rect, set_clip_rect, PixelRect, ScissorRect};

fn scaled(density: f32, min: (f32, f32), max: (f32, f32)) -> PixelRect {
    PixelRect {
        min_x: (density * min.0).round() as i32,
        min_y: (density * min.1).round() as i32,
        max_x: (density * max.0).round() as i32,
        max_y: (density * max.1).round() as i32,
    }
}

fn on_target(rect: ScissorRect, width: i64, height: i64) -> bool {
    let (x, y, w, h) = (rect.x as i64, rect.y as i64, rect.width as i64, rect.height as i64);
    0 <= x && 0 <= y && 0 <= w && 0 <= h && x + w <= width && y + h <= height
}

#[test]
fn clip_rect_is_scaled_rounded_and_turned_over() {
    let clip = scaled(2.0, (10.4, 5.6), (20.2, 30.9));
    assert_eq!(clip, PixelRect { min_x: 21, min_y: 11, max_x: 40, max_y: 62 });
    let rect = scissor_rect([100, 100], clip);
    assert_eq!(rect, ScissorRect { x: 21, y: 38, width: 19, height: 51 });
    assert_eq!(
        set_clip_rect([100, 100], clip),
        Command::Scissor { x: 21, y: 38, width: 19, height: 51 }
    );
}

#[test]
fn scissor_rect_stays_on_the_target() {
    let corners = [i32::MIN, -1000, -1, 0, 1, 7, 49, 50, 51, 99, 100, 101, 5000, i32::MAX];
    let targets: [[u32; 2]; 4] = [[0, 0], [100, 50], [1, 1], [i32::MAX as u32, i32::MAX as u32]];
    for target in targets {
        for &min_x in &corners {
            for &min_y in &corners {
                for &max_x in &corners {
                    for &max_y in &corners {
                        let rect = scissor_rect(target, PixelRect { min_x, min_y, max_x, max_y });
                        assert!(on_target(rect, target[0] as i64, target[1] as i64));
                    }
                }
            }
        }
    }
}

#[test]
fn clip_rect_beyond_the_target_is_cut_to_it() {
    let rect = scissor_rect([100, 80], PixelRect { min_x: -20, min_y: -5, max_x: 300, max_y: 90 });
    assert_eq!(rect, ScissorRect { x: 0, y: 0, width: 100, height: 80 });
}

#[test]
fn clip_rect_outside_the_target_has_no_area() {
    let right = scissor_rect([100, 80], PixelRect { min_x: 150, min_y: 10, max_x: 200, max_y: 20 });
    assert_eq!(right, ScissorRect { x: 100, y: 60, width: 0, height: 10 });
    let above = scissor_rect([100, 80], PixelRect { min_x: 10, min_y: -50, max_x: 20, max_y: -10 });
    assert_eq!(above, ScissorRect { x: 10, y: 80, width: 10, height: 0 });
}

#[test]
fn inverted_clip_rect_has_no_area() {
    let rect = scissor_rect([100, 80], PixelRect { min_x: 60, min_y: 40, max_x: 30, max_y: 20 });
    assert_eq!(rect, ScissorRect { x: 60, y: 40, width: 0, height: 0 });
}

#[test]
fn target_must_fit_the_contexts_integers() {
    assert!(check_target([0, 0]));
    assert!(check_target([i32::MAX as u32, i32::MAX as u32]));
    assert!(!check_target([i32::MAX as u32 + 1, 10]));
    assert!(!check_target([10, u32::MAX]));
}
