//! The description of a sprite atlas: one image and the frames cut from it.

use vstd::prelude::*;
use crate::archipelago::json::str_same;

verus! {

#[derive(Debug, Clone, Copy, PartialEq, Eq, Structural)]
pub struct ImageSize {
    pub w: u32,
    pub h: u32,
}

#[derive(Debug, Clone, Copy, PartialEq, Eq, Structural)]
pub struct ImageRect {
    pub x: u32,
    pub y: u32,
    pub w: u32,
    pub h: u32,
}

impl ImageRect {
    /// Whether the rectangle lies inside an image of the size `size`.
    pub open spec fn spec_fits(self, size: ImageSize) -> bool {
        self.x + self.w <= size.w && self.y + self.h <= size.h
    }

    /// The corner opposite to `(x, y)`, where `u32` holds it.
    pub fn max_corner(&self) -> (corner: Option<(u32, u32)>)
        ensures
            match corner {
                Some(c) => c.0 == self.x + self.w && c.1 == self.y + self.h,
                None => self.x + self.w > u32::MAX || self.y + self.h > u32::MAX,
            },
    {
        match (self.x.checked_add(self.w), self.y.checked_add(self.h)) {
            (Some(right), Some(bottom)) => Some((right, bottom)),
            _ => None,
        }
    }

    /// Whether the rectangle lies inside an image of the size `size`.
    pub fn fits(&self, size: &ImageSize) -> (yes: bool)
        ensures
            yes == self.spec_fits(*size),
    {
        match self.max_corner() {
            Some((right, bottom)) => right <= size.w && bottom <= size.h,
            None => false,
        }
    }
}

#[derive(Debug)]
pub struct AtlasMeta {
    pub app: String,
    pub version: String,
    pub image: String,
    pub format: String,
    pub size: ImageSize,
    pub scale: String,
}

#[derive(Debug, Clone, Copy, PartialEq, Eq, Structural)]
pub struct AtlasFrame {
    pub frame: ImageRect,
    pub rotated: bool,
    pub trimmed: bool,
    pub sprite_source_size: ImageRect,
    pub source_size: ImageSize,
    pub duration: usize,
}

/// An atlas: its image, and its frames by name in the order of the file.
#[derive(Debug)]
pub struct AtlasDef {
    pub meta: AtlasMeta,
    pub frames: Vec<(String, AtlasFrame)>,
}

/// The frame that the last entry named `name` holds.
pub open spec fn spec_frame_named(frames: Seq<(String, AtlasFrame)>, name: Seq<char>) -> Option<
    AtlasFrame,
>
    decreases frames.len(),
{
    if frames.len() == 0 {
        None
    } else if frames.last().0@ == name {
        Some(frames.last().1)
    } else {
        spec_frame_named(frames.drop_last(), name)
    }
}

impl AtlasDef {
    /// Where the sprite `name` lies in the image.
    pub open spec fn spec_sprite_location(self, name: Seq<char>) -> Option<ImageRect> {
        match spec_frame_named(self.frames@, name) {
            Some(frame) => Some(frame.frame),
            None => None,
        }
    }

    /// Where the sprite `name` lies in the image.
    pub fn get_sprite_location(&self, name: &str) -> (location: Option<ImageRect>)
        ensures
            location == self.spec_sprite_location(name@),
    {
        let mut i: usize = self.frames.len();
        assert(self.frames@.take(i as int) == self.frames@);
        while i > 0
            invariant
                i <= self.frames.len(),
                spec_frame_named(self.frames@, name@) == spec_frame_named(
                    self.frames@.take(i as int),
                    name@,
                ),
            decreases i,
        {
            i -= 1;
            assert(self.frames@.take(i + 1).drop_last() == self.frames@.take(i as int));
            if str_same(self.frames[i].0.as_str(), name) {
                return Some(self.frames[i].1.frame);
            }
        }
        None
    }

    /// Whether every frame lies inside the image.
    pub open spec fn spec_frames_fit(self) -> bool {
        forall|i: int|
            0 <= i < self.frames@.len() ==> (#[trigger] self.frames@[i]).1.frame.spec_fits(
                self.meta.size,
            )
    }

    /// Whether every frame lies inside the image.
    pub fn frames_fit(&self) -> (yes: bool)
        ensures
            yes == self.spec_frames_fit(),
    {
        let mut i: usize = 0;
        while i < self.frames.len()
            invariant
                i <= self.frames.len(),
                forall|k: int|
                    0 <= k < i ==> (#[trigger] self.frames@[k]).1.frame.spec_fits(self.meta.size),
            decreases self.frames.len() - i,
        {
            if !self.frames[i].1.frame.fits(&self.meta.size) {
                return false;
            }
            i += 1;
        }
        true
    }
}

} // verus!
