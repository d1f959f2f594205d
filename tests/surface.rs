use canvas_surface::error::Error;
use canvas_surface::orientation::Orientation;
use canvas_surface::renderer::{DrawCommand, Renderer, GREEN, LINE_WIDTH};
use canvas_surface::size::{Measurement, Size};

fn measure(inline_size: f64, block_size: f64) -> Measurement {
    Measurement {
        inline_size: inline_size.to_bits(),
        block_size: block_size.to_bits(),
    }
}

#[test]
fn construct_keeps_drawable_size() {
    let r = Renderer::new(300, 150);
    assert_eq!(r.size(), Size { width: 300, height: 150 });
    assert!(!r.redraw_pending());
    assert_eq!(r.orientation(), Orientation::Horizontal);
}

#[test]
fn layout_change_commits_resolved_size() {
    let mut r = Renderer::new(300, 150);
    let committed = r.on_layout_changed(&measure(640.4, 480.6), "horizontal-tb");
    assert_eq!(committed, Size { width: 640, height: 481 });
    assert_eq!(r.size(), committed);
    assert!(r.redraw_pending());
}

#[test]
fn layout_change_in_vertical_mode() {
    let mut r = Renderer::new(300, 150);
    let m = measure(640.4, 480.6);
    let committed = r.on_layout_changed(&m, "vertical-rl");
    assert_eq!(committed, Size { width: 481, height: 640 });
    assert_eq!(committed, Size::compute(&m, Orientation::Vertical));
    assert_eq!(r.size(), committed);
    assert_eq!(r.orientation(), Orientation::Vertical);
}

#[test]
fn layout_change_clamps_oversized() {
    let mut r = Renderer::new(1, 1);
    let committed = r.on_layout_changed(&measure(99999.0, 10.0), "");
    assert_eq!(committed, Size { width: 32767, height: 10 });
    assert_eq!(r.size(), committed);
}

#[test]
fn render_paints_cross_over_full_size() {
    let r = Renderer::new(300, 150);
    let expected = vec![
        DrawCommand::SetFillStyle { rgb: GREEN },
        DrawCommand::BeginPath,
        DrawCommand::FillRect { x: 0, y: 0, width: 300, height: 150 },
        DrawCommand::SetLineWidth { width: LINE_WIDTH },
        DrawCommand::MoveTo { x: 0, y: 0 },
        DrawCommand::LineTo { x: 300, y: 150 },
        DrawCommand::MoveTo { x: 300, y: 0 },
        DrawCommand::LineTo { x: 0, y: 150 },
        DrawCommand::Stroke,
    ];
    assert_eq!(r.render(), expected);
    assert_eq!(GREEN, 0x008000);
    assert_eq!(LINE_WIDTH, 5);
}

#[test]
fn render_twice_is_identical() {
    let mut r = Renderer::new(300, 150);
    r.on_layout_changed(&measure(640.4, 480.6), "horizontal-tb");
    let first = r.render();
    let second = r.render();
    assert_eq!(first, second);
    let redrawn = r.request_redraw();
    assert_eq!(redrawn, first);
    assert_eq!(r.request_redraw(), first);
    assert_eq!(r.render(), first);
}

#[test]
fn redraw_clears_pending_and_keeps_size() {
    let mut r = Renderer::new(300, 150);
    r.resize(Size { width: 20, height: 10 });
    assert!(r.redraw_pending());
    let commands = r.request_redraw();
    assert!(!r.redraw_pending());
    assert_eq!(r.size(), Size { width: 20, height: 10 });
    assert_eq!(commands[2], DrawCommand::FillRect { x: 0, y: 0, width: 20, height: 10 });
}

#[test]
fn render_uses_new_size_after_resize() {
    let mut r = Renderer::new(300, 150);
    let before = r.render();
    r.on_layout_changed(&measure(100.0, 50.0), "horizontal-tb");
    let after = r.render();
    assert_ne!(before, after);
    assert_eq!(after[5], DrawCommand::LineTo { x: 100, y: 50 });
}

#[test]
fn surface_unavailable_error() {
    let e = Error::surface_unavailable();
    assert!(format!("{e:?}").starts_with("Error"));
}
