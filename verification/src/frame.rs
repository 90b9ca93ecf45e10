use vstd::hash_map::StringHashMap;
use vstd::prelude::*;

verus! {

/// A rectangle of the sprite atlas, in pixels: corner and size.
#[derive(Copy, Clone, Debug, PartialEq, Eq, Structural)]
pub struct XYWH {
    pub x: u32,
    pub y: u32,
    pub w: u32,
    pub h: u32,
}

impl XYWH {
    pub fn zeros() -> (r: Self)
        ensures
            r == (XYWH { x: 0, y: 0, w: 0, h: 0 }),
    {
        Self { x: 0, y: 0, w: 0, h: 0 }
    }
}

/// The texts of a list of strings.
pub open spec fn views_of(names: Seq<String>) -> Seq<Seq<char>> {
    names.map_values(|s: String| s@)
}

/// `order` lists the keys of `m`, each key once.
pub open spec fn lists_keys_once<V>(order: Seq<Seq<char>>, m: Map<Seq<char>, V>) -> bool {
    &&& forall|i: int| 0 <= i < order.len() ==> m.contains_key(#[trigger] order[i])
    &&& forall|k: Seq<char>| #[trigger] m.contains_key(k) ==> order.contains(k)
    &&& order.no_duplicates()
}

/// Adding a key to a map and to its key list (when new) keeps the list
/// listing the keys once.
proof fn lemma_lists_keys_once_insert<V>(
    order: Seq<Seq<char>>,
    m: Map<Seq<char>, V>,
    key: Seq<char>,
    value: V,
)
    requires
        lists_keys_once(order, m),
    ensures
        lists_keys_once(
            if m.contains_key(key) {
                order
            } else {
                order.push(key)
            },
            m.insert(key, value),
        ),
{
    let m2 = m.insert(key, value);
    if m.contains_key(key) {
        assert forall|k: Seq<char>| #[trigger] m2.contains_key(k) implies order.contains(k) by {
            if k != key {
                assert(m.contains_key(k));
            }
        }
    } else {
        let o2 = order.push(key);
        assert forall|i: int| 0 <= i < o2.len() implies m2.contains_key(#[trigger] o2[i]) by {
            if i < order.len() {
                assert(o2[i] == order[i]);
            }
        }
        assert forall|k: Seq<char>| #[trigger] m2.contains_key(k) implies o2.contains(k) by {
            if k == key {
                assert(o2[order.len() as int] == key);
            } else {
                assert(m.contains_key(k));
                let j = choose|j: int| 0 <= j < order.len() && order[j] == k;
                assert(o2[j] == k);
            }
        }
        assert forall|i: int, j: int| 0 <= i < o2.len() && 0 <= j < o2.len() && i != j implies o2[i]
            != o2[j] by {
            if i < order.len() && j < order.len() {
                assert(o2[i] == order[i] && o2[j] == order[j]);
            } else if i < order.len() {
                assert(m.contains_key(order[i]));
            } else if j < order.len() {
                assert(m.contains_key(order[j]));
            }
        }
    }
}

/// One frame of an animation: its sprite and its named masks (colliders),
/// each a rectangle relative to the sprite. The mask names are also kept in
/// the order they were first added.
pub struct Frame {
    sprite: XYWH,
    masks: StringHashMap<XYWH>,
    mask_names: Vec<String>,
}

impl Frame {
    pub closed spec fn sprite_rect(&self) -> XYWH {
        self.sprite
    }

    pub closed spec fn masks(&self) -> Map<Seq<char>, XYWH> {
        self.masks@
    }

    /// The mask names in the order they were first added.
    pub closed spec fn mask_order(&self) -> Seq<Seq<char>> {
        views_of(self.mask_names@)
    }

    /// The name list lists the masks, each once.
    pub closed spec fn wf(&self) -> bool {
        lists_keys_once(self.mask_order(), self.masks())
    }

    /// A frame without masks.
    pub fn new(sprite: XYWH) -> (f: Self)
        ensures
            f.sprite_rect() == sprite,
            f.masks() == Map::<Seq<char>, XYWH>::empty(),
            f.mask_order() == Seq::<Seq<char>>::empty(),
            f.wf(),
    {
        let f = Frame { sprite, masks: StringHashMap::new(), mask_names: Vec::new() };
        proof {
            assert(f.mask_order() =~= Seq::<Seq<char>>::empty());
        }
        f
    }

    pub fn sprite(&self) -> (s: XYWH)
        ensures
            s == self.sprite_rect(),
    {
        self.sprite
    }

    /// Adds (or replaces) the mask of the given name.
    pub fn insert_mask(&mut self, name: String, mask: XYWH)
        requires
            old(self).wf(),
        ensures
            final(self).wf(),
            final(self).sprite_rect() == old(self).sprite_rect(),
            final(self).masks() == old(self).masks().insert(name@, mask),
            final(self).mask_order() == (if old(self).masks().contains_key(name@) {
                old(self).mask_order()
            } else {
                old(self).mask_order().push(name@)
            }),
    {
        proof {
            lemma_lists_keys_once_insert(self.mask_order(), self.masks(), name@, mask);
        }
        if !self.masks.contains_key(name.as_str()) {
            let ghost before = self.mask_names@;
            self.mask_names.push(name.clone());
            proof {
                assert(views_of(self.mask_names@) =~= views_of(before).push(name@));
            }
        }
        self.masks.insert(name, mask);
    }

    /// The rectangle of the named mask, if the frame has one.
    pub fn mask(&self, name: &str) -> (m: Option<XYWH>)
        ensures
            m == (if self.masks().contains_key(name@) {
                Some(self.masks()[name@])
            } else {
                None
            }),
    {
        match self.masks.get(name) {
            Some(m) => Some(*m),
            None => None,
        }
    }

    /// The names of the frame's masks, in the order they were first added;
    /// each mask is listed once.
    pub fn mask_names(&self) -> (names: &Vec<String>)
        requires
            self.wf(),
        ensures
            views_of(names@) == self.mask_order(),
            lists_keys_once(views_of(names@), self.masks()),
    {
        &self.mask_names
    }
}

/// The frames of every animation of the sprite atlas, by animation name.
/// The animation names are also kept in the order they were first added.
pub struct FrameAtlas {
    size: [u32; 2],
    name_to_frames: StringHashMap<Vec<Frame>>,
    animation_names: Vec<String>,
}

impl FrameAtlas {
    pub closed spec fn atlas_size(&self) -> Seq<u32> {
        self.size@
    }

    pub closed spec fn animations(&self) -> Map<Seq<char>, Vec<Frame>> {
        self.name_to_frames@
    }

    /// The animation names in the order they were first added.
    pub closed spec fn animation_order(&self) -> Seq<Seq<char>> {
        views_of(self.animation_names@)
    }

    /// The name list lists the animations, each once.
    pub closed spec fn wf(&self) -> bool {
        lists_keys_once(self.animation_order(), self.animations())
    }

    /// An atlas of the given size without animations.
    pub fn with_size(size: [u32; 2]) -> (a: Self)
        ensures
            a.atlas_size() == size@,
            a.animations() == Map::<Seq<char>, Vec<Frame>>::empty(),
            a.animation_order() == Seq::<Seq<char>>::empty(),
            a.wf(),
    {
        let a = FrameAtlas {
            size,
            name_to_frames: StringHashMap::new(),
            animation_names: Vec::new(),
        };
        proof {
            assert(a.animation_order() =~= Seq::<Seq<char>>::empty());
        }
        a
    }

    /// Adds (or replaces) the frames of the named animation.
    pub fn insert_animation(&mut self, name: String, frames: Vec<Frame>)
        requires
            old(self).wf(),
        ensures
            final(self).wf(),
            final(self).atlas_size() == old(self).atlas_size(),
            final(self).animations() == old(self).animations().insert(name@, frames),
            final(self).animation_order() == (if old(self).animations().contains_key(name@) {
                old(self).animation_order()
            } else {
                old(self).animation_order().push(name@)
            }),
    {
        proof {
            lemma_lists_keys_once_insert(self.animation_order(), self.animations(), name@, frames);
        }
        if !self.name_to_frames.contains_key(name.as_str()) {
            let ghost before = self.animation_names@;
            self.animation_names.push(name.clone());
            proof {
                assert(views_of(self.animation_names@) =~= views_of(before).push(name@));
            }
        }
        self.name_to_frames.insert(name, frames);
    }

    pub fn size(&self) -> (s: [u32; 2])
        ensures
            s@ == self.atlas_size(),
    {
        self.size
    }

    /// Whether the atlas has the named animation.
    pub fn has_animation(&self, name: &str) -> (r: bool)
        ensures
            r == self.animations().contains_key(name@),
    {
        self.name_to_frames.contains_key(name)
    }

    /// The frames of the named animation, which the atlas must have.
    pub fn frames(&self, name: &str) -> (frames: &Vec<Frame>)
        requires
            self.animations().contains_key(name@),
        ensures
            *frames == self.animations()[name@],
    {
        self.name_to_frames.get(name).unwrap()
    }

    /// The names of the atlas's animations, in the order they were first
    /// added; each animation is listed once.
    pub fn animation_names(&self) -> (names: &Vec<String>)
        requires
            self.wf(),
        ensures
            views_of(names@) == self.animation_order(),
            lists_keys_once(views_of(names@), self.animations()),
    {
        &self.animation_names
    }
}

/// Reading a mask gives back the last rectangle written under its name;
/// writing one name leaves the masks of every other name as they were.
pub proof fn lemma_mask_read_after_write(
    masks: Map<Seq<char>, XYWH>,
    name: Seq<char>,
    mask: XYWH,
    other: Seq<char>,
)
    ensures
        masks.insert(name, mask).contains_key(name),
        masks.insert(name, mask)[name] == mask,
        other != name ==> masks.insert(name, mask).contains_key(other) == masks.contains_key(
            other,
        ),
        other != name && masks.contains_key(other) ==> masks.insert(name, mask)[other]
            == masks[other],
{
}

/// The frames read for an animation are the last ones written under its
/// name; other animations keep theirs.
pub proof fn lemma_animation_read_after_write(
    animations: Map<Seq<char>, Vec<Frame>>,
    name: Seq<char>,
    frames: Vec<Frame>,
    other: Seq<char>,
)
    ensures
        animations.insert(name, frames).contains_key(name),
        animations.insert(name, frames)[name] == frames,
        other != name ==> animations.insert(name, frames).contains_key(other)
            == animations.contains_key(other),
        other != name && animations.contains_key(other) ==> animations.insert(name, frames)[other]
            == animations[other],
{
}

} // verus!
