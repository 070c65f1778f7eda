//! Canvas and drawing data structures: the layer stack of a canvas.

use vstd::prelude::*;
use vstd::string::*;

verus! {

/// How a layer is composited onto the layers below it.
#[derive(Clone, Copy, Debug, PartialEq, Eq, Structural)]
pub enum BlendMode {
    Normal,
    Multiply,
    Screen,
    Overlay,
}

/// Fully opaque, on the 8-bit scale that layer opacity is kept in.
pub const OPAQUE: u8 = 255;

/// One layer of a canvas.
#[derive(Clone, Debug)]
pub struct Layer {
    pub name: String,
    pub visible: bool,
    /// Opacity on an 8-bit scale: 0 is fully transparent, `OPAQUE` (255)
    /// fully opaque.
    pub opacity: u8,
    pub blend_mode: BlendMode,
}

/// A fresh layer called `name`: visible, fully opaque, blended normally.
pub open spec fn fresh_layer(name: Seq<char>, layer: Layer) -> bool {
    &&& layer.name@ == name
    &&& layer.visible
    &&& layer.opacity == OPAQUE
    &&& layer.blend_mode == BlendMode::Normal
}

impl Layer {
    /// A visible, fully opaque, normally blended layer called `name`.
    pub fn new(name: &str) -> (r: Layer)
        ensures
            fresh_layer(name@, r),
    {
        Layer { name: String::from_str(name), visible: true, opacity: OPAQUE, blend_mode: BlendMode::Normal }
    }
}

/// A drawing surface of `width` x `height` pixels and its layer stack.
pub struct Canvas {
    pub width: u32,
    pub height: u32,
    pub layers: Vec<Layer>,
    pub active_layer: usize,
}

impl Canvas {
    /// A canvas always has a layer, and the active layer is one of them.
    pub open spec fn wf(&self) -> bool {
        &&& self.layers.len() >= 1
        &&& self.active_layer < self.layers.len()
    }

    /// A canvas of the given size holding a single "Background" layer,
    /// which is active.
    pub fn new(width: u32, height: u32) -> (r: Canvas)
        ensures
            r.width == width,
            r.height == height,
            r.layers.len() == 1,
            fresh_layer("Background"@, r.layers[0]),
            r.active_layer == 0,
            r.wf(),
    {
        let background = Layer::new("Background");
        let mut layers = Vec::new();
        layers.push(background);
        Canvas { width, height, layers, active_layer: 0 }
    }

    /// Adds a fresh layer called `name` on top of the stack; the active
    /// layer is unchanged.
    pub fn add_layer(&mut self, name: &str)
        requires
            old(self).layers.len() < usize::MAX,
        ensures
            final(self).layers.len() == old(self).layers.len() + 1,
            final(self).layers@.take(old(self).layers.len() as int) == old(self).layers@,
            fresh_layer(name@, final(self).layers@.last()),
            final(self).width == old(self).width,
            final(self).height == old(self).height,
            final(self).active_layer == old(self).active_layer,
            old(self).wf() ==> final(self).wf(),
    {
        let layer = Layer::new(name);
        self.layers.push(layer);
    }

    /// Removes the layer at `index`, unless `index` is out of range or the
    /// layer is the only one left, in which case nothing changes. An
    /// active-layer index past the new top is pulled back onto it.
    pub fn remove_layer(&mut self, index: usize)
        ensures
            final(self).width == old(self).width,
            final(self).height == old(self).height,
            index < old(self).layers.len() && old(self).layers.len() > 1 ==> {
                &&& final(self).layers@ == old(self).layers@.remove(index as int)
                &&& final(self).active_layer == if old(self).active_layer >= final(self).layers.len() {
                    (final(self).layers.len() - 1) as usize
                } else {
                    old(self).active_layer
                }
            },
            !(index < old(self).layers.len() && old(self).layers.len() > 1) ==> *final(self) == *old(
                self,
            ),
            old(self).wf() ==> final(self).wf(),
    {
        if index < self.layers.len() && self.layers.len() > 1 {
            self.layers.remove(index);
            if self.active_layer >= self.layers.len() {
                self.active_layer = self.layers.len() - 1;
            }
        }
    }

    /// Clears the canvas. The layer stack holds no pixels, so nothing in
    /// it changes.
    pub fn clear(&mut self)
        ensures
            *final(self) == *old(self),
    {
    }
}

} // verus!
