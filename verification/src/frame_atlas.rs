use vstd::hash_map::StringHashMap;
use vstd::prelude::*;

verus! {

/// A rectangle of the sprite atlas, in pixels: corner and size.
#[derive(Copy, Clone, Debug, PartialEq, Eq, Structural)]
pub struct XYWH {
    pub x: u32,
    pub y: u32,
    pub w: u32,
    pub h: u32,
}

/// One frame of an animation: its sprite and, where it has them, the
/// rectangles of its body and of its attack.
#[derive(Copy, Clone, Debug, PartialEq, Eq, Structural)]
pub struct Frame {
    pub sprite: XYWH,
    pub rigid_collider: Option<XYWH>,
    pub attack_collider: Option<XYWH>,
}

/// The frames of every animation of the sprite atlas, by animation name.
pub struct FrameAtlas {
    size: [u32; 2],
    frames: StringHashMap<Vec<Frame>>,
}

impl FrameAtlas {
    pub closed spec fn atlas_size(&self) -> Seq<u32> {
        self.size@
    }

    /// The frames of each animation, by name.
    pub closed spec fn animations(&self) -> Map<Seq<char>, Seq<Frame>> {
        Map::new(|name: Seq<char>| self.frames@.contains_key(name), |name: Seq<char>| self.frames@[name]@)
    }

    /// The atlas has the named animation, and that animation a frame `idx`.
    pub open spec fn has_frame(&self, name: Seq<char>, idx: int) -> bool {
        self.animations().contains_key(name) && 0 <= idx < self.animations()[name].len()
    }

    /// An atlas of the given size without animations.
    pub fn with_size(size: [u32; 2]) -> (a: Self)
        ensures
            a.atlas_size() == size@,
            a.animations() == Map::<Seq<char>, Seq<Frame>>::empty(),
    {
        let a = FrameAtlas { size, frames: StringHashMap::new() };
        proof {
            assert(a.animations() =~= Map::<Seq<char>, Seq<Frame>>::empty());
        }
        a
    }

    /// Adds (or replaces) the frames of the named animation.
    pub fn insert_frames(&mut self, name: String, frames: Vec<Frame>)
        ensures
            final(self).atlas_size() == old(self).atlas_size(),
            final(self).animations() == old(self).animations().insert(name@, frames@),
    {
        let ghost old_self = *self;
        let ghost key = name@;
        let ghost fs = frames@;
        self.frames.insert(name, frames);
        proof {
            assert(self.animations() =~= old_self.animations().insert(key, fs));
        }
    }

    pub fn size(&self) -> (s: [u32; 2])
        ensures
            s@ == self.atlas_size(),
    {
        self.size
    }

    /// Frame `idx` of the named animation, which the atlas must have.
    pub fn get_frame(&self, name: &str, idx: usize) -> (f: Frame)
        requires
            self.has_frame(name@, idx as int),
        ensures
            f == self.animations()[name@][idx as int],
    {
        let frames = self.frames.get(name).unwrap();
        frames[idx]
    }

    /// The sprite rectangle of frame `idx` of the named animation.
    pub fn get_sprite_xywh(&self, name: &str, idx: usize) -> (r: XYWH)
        requires
            self.has_frame(name@, idx as int),
        ensures
            r == self.animations()[name@][idx as int].sprite,
    {
        self.get_frame(name, idx).sprite
    }

    /// The body rectangle of frame `idx` of the named animation, if it has
    /// one.
    pub fn get_rigid_collider(&self, name: &str, idx: usize) -> (r: Option<XYWH>)
        requires
            self.has_frame(name@, idx as int),
        ensures
            r == self.animations()[name@][idx as int].rigid_collider,
    {
        self.get_frame(name, idx).rigid_collider
    }

    /// The attack rectangle of frame `idx` of the named animation, if it
    /// has one.
    pub fn get_attack_collider(&self, name: &str, idx: usize) -> (r: Option<XYWH>)
        requires
            self.has_frame(name@, idx as int),
        ensures
            r == self.animations()[name@][idx as int].attack_collider,
    {
        self.get_frame(name, idx).attack_collider
    }
}

} // verus!
