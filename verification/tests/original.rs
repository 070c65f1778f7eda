use mxross_canvas::{Canvas, CpuRenderer, Renderer};

#[test]
fn renderer_initializes() {
    let renderer = CpuRenderer::new();
    assert!(renderer.initialized);
}

#[test]
fn core_engine_initializes() {
    let _renderer = Renderer::new();
    assert!(true);
}

#[test]
fn canvas_creates() {
    let canvas = Canvas::new(800, 600);
    assert_eq!(canvas.width, 800);
    assert_eq!(canvas.height, 600);
}

#[test]
fn lib_canvas_creates() {
    let canvas = Canvas::new(800, 600);
    assert_eq!(canvas.width, 800);
    assert_eq!(canvas.height, 600);
}

#[test]
fn can_add_layers() {
    let mut canvas = Canvas::new(1024, 1024);
    canvas.add_layer("Layer 1");
    canvas.add_layer("Layer 2");
    assert_eq!(canvas.layers.len(), 3); // +1 for background
}

#[test]
fn lib_can_add_layers() {
    let mut canvas = Canvas::new(1024, 1024);
    canvas.add_layer("Layer 1");
    canvas.add_layer("Layer 2");
    assert_eq!(canvas.layers.len(), 3); // +1 for background
}
