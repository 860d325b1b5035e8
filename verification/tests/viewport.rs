use cinder::render_graph::Rect2D;
use cinder::viewport::{blit_region, viewport, BlitRect, Offset3D};

#[test]
fn plain_viewport_covers_the_rectangle() {
    let v = viewport(Rect2D { x: 10, y: 20, width: 800, height: 600 }, false);
    assert_eq!((v.x, v.y, v.width, v.height), (10, 20, 800, 600));
    assert_eq!((v.min_depth, v.max_depth), (0, 1));
}

#[test]
fn flipped_viewport_runs_upwards() {
    let rect = Rect2D::from_width_height(1280, 720);
    let plain = viewport(rect, false);
    let flipped = viewport(rect, true);
    assert_eq!((flipped.x, flipped.y, flipped.width, flipped.height), (0, 720, 1280, -720));
    assert_eq!(flipped.y, plain.y + plain.height);
    assert_eq!(flipped.y + flipped.height, plain.y);
    let offset = viewport(Rect2D { x: 0, y: 100, width: 640, height: 480 }, true);
    assert_eq!((offset.y, offset.height), (380, -480));
}

#[test]
fn blit_region_corners() {
    let src = BlitRect { x: 0, y: 0, width: 512, height: 256 };
    let dst = BlitRect { x: 16, y: 32, width: 128, height: 64 };
    let region = blit_region(1, src, 2, dst);
    assert_eq!((region.src.aspect_mask, region.src.layer_count), (1, 1));
    assert_eq!(region.src.start, Offset3D { x: 0, y: 0, z: 0 });
    assert_eq!(region.src.end, Offset3D { x: 512, y: 256, z: 1 });
    assert_eq!((region.dst.aspect_mask, region.dst.layer_count), (2, 1));
    assert_eq!(region.dst.start, Offset3D { x: 16, y: 32, z: 0 });
    assert_eq!(region.dst.end, Offset3D { x: 128, y: 64, z: 1 });
}
