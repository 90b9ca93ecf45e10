use vstd::prelude::*;
use vstd::std_specs::convert::FromSpecImpl;
use vstd::string::StringExecFns;

verus! {

/// The space a primitive's rectangle is given in.
#[derive(Copy, Clone, Debug, PartialEq, Eq, Structural)]
pub enum SpaceType {
    WorldSpace,
    CameraSpace,
    ScreenSpace,
}

/// The texture a primitive samples.
#[derive(Copy, Clone, Debug, PartialEq, Eq, Structural)]
pub enum TextureType {
    ProceduralTexture,
    SpriteTexture,
    GlyphTexture,
}

/// Shading effects, as bit flags.
#[derive(Copy, Clone, Debug, PartialEq, Eq, Structural)]
pub enum EffectType {
    ApplyLightEffect,
    StoneWallEffect,
}

pub open spec fn space_code(e: SpaceType) -> u32 {
    match e {
        SpaceType::WorldSpace => 1,
        SpaceType::CameraSpace => 2,
        SpaceType::ScreenSpace => 3,
    }
}

pub open spec fn texture_code(e: TextureType) -> u32 {
    match e {
        TextureType::ProceduralTexture => 1,
        TextureType::SpriteTexture => 2,
        TextureType::GlyphTexture => 3,
    }
}

pub open spec fn effect_code(e: EffectType) -> u32 {
    match e {
        EffectType::ApplyLightEffect => 1,
        EffectType::StoneWallEffect => 2,
    }
}

impl From<SpaceType> for u32 {
    fn from(e: SpaceType) -> (c: u32) {
        match e {
            SpaceType::WorldSpace => 1,
            SpaceType::CameraSpace => 2,
            SpaceType::ScreenSpace => 3,
        }
    }
}

impl FromSpecImpl<SpaceType> for u32 {
    open spec fn obeys_from_spec() -> bool {
        true
    }

    open spec fn from_spec(e: SpaceType) -> u32 {
        space_code(e)
    }
}

impl From<TextureType> for u32 {
    fn from(e: TextureType) -> (c: u32) {
        match e {
            TextureType::ProceduralTexture => 1,
            TextureType::SpriteTexture => 2,
            TextureType::GlyphTexture => 3,
        }
    }
}

impl FromSpecImpl<TextureType> for u32 {
    open spec fn obeys_from_spec() -> bool {
        true
    }

    open spec fn from_spec(e: TextureType) -> u32 {
        texture_code(e)
    }
}

impl From<EffectType> for u32 {
    fn from(e: EffectType) -> (c: u32) {
        match e {
            EffectType::ApplyLightEffect => 1,
            EffectType::StoneWallEffect => 2,
        }
    }
}

impl FromSpecImpl<EffectType> for u32 {
    open spec fn obeys_from_spec() -> bool {
        true
    }

    open spec fn from_spec(e: EffectType) -> u32 {
        effect_code(e)
    }
}

/// An enum whose variants the shaders see as named `uint` constants.
pub trait ShaderConstant: Sized + Copy {
    /// Every variant, in declaration order.
    spec fn variants() -> Seq<Self>;

    /// The variant's name.
    spec fn constant_name(self) -> Seq<char>;

    /// The variant's number.
    spec fn constant_value(self) -> u32;

    fn all() -> (v: Vec<Self>)
        ensures
            v@ == Self::variants(),
    ;

    fn name(self) -> (s: &'static str)
        ensures
            s@ == self.constant_name(),
    ;

    fn value(self) -> (v: u32)
        ensures
            v == self.constant_value(),
    ;
}

impl ShaderConstant for SpaceType {
    open spec fn variants() -> Seq<Self> {
        seq![SpaceType::WorldSpace, SpaceType::CameraSpace, SpaceType::ScreenSpace]
    }

    open spec fn constant_name(self) -> Seq<char> {
        match self {
            SpaceType::WorldSpace => "WorldSpace"@,
            SpaceType::CameraSpace => "CameraSpace"@,
            SpaceType::ScreenSpace => "ScreenSpace"@,
        }
    }

    open spec fn constant_value(self) -> u32 {
        space_code(self)
    }

    fn all() -> (v: Vec<Self>) {
        vec![SpaceType::WorldSpace, SpaceType::CameraSpace, SpaceType::ScreenSpace]
    }

    fn name(self) -> (s: &'static str) {
        match self {
            SpaceType::WorldSpace => "WorldSpace",
            SpaceType::CameraSpace => "CameraSpace",
            SpaceType::ScreenSpace => "ScreenSpace",
        }
    }

    fn value(self) -> (v: u32) {
        u32::from(self)
    }
}

impl ShaderConstant for TextureType {
    open spec fn variants() -> Seq<Self> {
        seq![TextureType::ProceduralTexture, TextureType::SpriteTexture, TextureType::GlyphTexture]
    }

    open spec fn constant_name(self) -> Seq<char> {
        match self {
            TextureType::ProceduralTexture => "ProceduralTexture"@,
            TextureType::SpriteTexture => "SpriteTexture"@,
            TextureType::GlyphTexture => "GlyphTexture"@,
        }
    }

    open spec fn constant_value(self) -> u32 {
        texture_code(self)
    }

    fn all() -> (v: Vec<Self>) {
        vec![TextureType::ProceduralTexture, TextureType::SpriteTexture, TextureType::GlyphTexture]
    }

    fn name(self) -> (s: &'static str) {
        match self {
            TextureType::ProceduralTexture => "ProceduralTexture",
            TextureType::SpriteTexture => "SpriteTexture",
            TextureType::GlyphTexture => "GlyphTexture",
        }
    }

    fn value(self) -> (v: u32) {
        u32::from(self)
    }
}

impl ShaderConstant for EffectType {
    open spec fn variants() -> Seq<Self> {
        seq![EffectType::ApplyLightEffect, EffectType::StoneWallEffect]
    }

    open spec fn constant_name(self) -> Seq<char> {
        match self {
            EffectType::ApplyLightEffect => "ApplyLightEffect"@,
            EffectType::StoneWallEffect => "StoneWallEffect"@,
        }
    }

    open spec fn constant_value(self) -> u32 {
        effect_code(self)
    }

    fn all() -> (v: Vec<Self>) {
        vec![EffectType::ApplyLightEffect, EffectType::StoneWallEffect]
    }

    fn name(self) -> (s: &'static str) {
        match self {
            EffectType::ApplyLightEffect => "ApplyLightEffect",
            EffectType::StoneWallEffect => "StoneWallEffect",
        }
    }

    fn value(self) -> (v: u32) {
        u32::from(self)
    }
}

/// The decimal digit `d`.
pub open spec fn digit_text(d: nat) -> Seq<char> {
    if d == 0 {
        "0"@
    } else if d == 1 {
        "1"@
    } else if d == 2 {
        "2"@
    } else if d == 3 {
        "3"@
    } else if d == 4 {
        "4"@
    } else if d == 5 {
        "5"@
    } else if d == 6 {
        "6"@
    } else if d == 7 {
        "7"@
    } else if d == 8 {
        "8"@
    } else {
        "9"@
    }
}

/// The decimal notation of `n`, without leading zeros.
pub open spec fn decimal(n: nat) -> Seq<char>
    decreases n,
{
    if n < 10 {
        digit_text(n)
    } else {
        decimal(n / 10) + digit_text(n % 10)
    }
}

fn digit_str(d: u32) -> (s: &'static str)
    requires
        d < 10,
    ensures
        s@ == digit_text(d as nat),
{
    if d == 0 {
        "0"
    } else if d == 1 {
        "1"
    } else if d == 2 {
        "2"
    } else if d == 3 {
        "3"
    } else if d == 4 {
        "4"
    } else if d == 5 {
        "5"
    } else if d == 6 {
        "6"
    } else if d == 7 {
        "7"
    } else if d == 8 {
        "8"
    } else {
        "9"
    }
}

/// Appends the decimal notation of `n`.
pub fn push_decimal(s: &mut String, n: u32)
    ensures
        final(s)@ == old(s)@ + decimal(n as nat),
    decreases n,
{
    if n >= 10 {
        push_decimal(s, n / 10);
    }
    s.append(digit_str(n % 10));
}

/// The shader line that defines a constant.
pub open spec fn constant_line(name: Seq<char>, value: u32) -> Seq<char> {
    "const uint "@ + name + " = "@ + decimal(value as nat) + ";\n"@
}

/// The lines defining each of the given variants, in order.
pub open spec fn constant_lines<T: ShaderConstant>(vs: Seq<T>) -> Seq<char>
    decreases vs.len(),
{
    if vs.len() == 0 {
        Seq::empty()
    } else {
        constant_lines(vs.drop_last()) + constant_line(vs.last().constant_name(), vs.last().constant_value())
    }
}

/// GLSL source defining one `const uint` per variant of `T`, named as the
/// variant and valued as its number.
pub fn enum_to_shader_source<T: ShaderConstant>() -> (source: String)
    ensures
        source@ == constant_lines(T::variants()),
{
    let mut source = String::new();
    let variants = T::all();
    let mut i: usize = 0;
    while i < variants.len()
        invariant
            i <= variants.len(),
            variants@ == T::variants(),
            source@ == constant_lines(variants@.take(i as int)),
        decreases variants.len() - i,
    {
        let variant = variants[i];
        source.append("const uint ");
        source.append(variant.name());
        source.append(" = ");
        push_decimal(&mut source, variant.value());
        source.append(";\n");
        proof {
            assert(variants@.take(i as int + 1).drop_last() == variants@.take(i as int));
        }
        i = i + 1;
    }
    proof {
        assert(variants@.take(variants.len() as int) == variants@);
    }
    source
}

/// The shader codes number each kind's variants from one in declaration
/// order, so no two variants of a kind share a code and none is zero.
pub proof fn lemma_shader_codes_number_variants(
    a: SpaceType,
    b: SpaceType,
    t: TextureType,
    u: TextureType,
    e: EffectType,
    f: EffectType,
)
    ensures
        space_code(a) == space_code(b) ==> a == b,
        texture_code(t) == texture_code(u) ==> t == u,
        effect_code(e) == effect_code(f) ==> e == f,
        1 <= space_code(a) <= 3 && 1 <= texture_code(t) <= 3 && 1 <= effect_code(e) <= 2,
        space_code(SpaceType::WorldSpace) == 1 && space_code(SpaceType::ScreenSpace) == 3,
        texture_code(TextureType::ProceduralTexture) == 1 && texture_code(TextureType::GlyphTexture)
            == 3,
        effect_code(EffectType::ApplyLightEffect) == 1 && effect_code(EffectType::StoneWallEffect)
            == 2,
{
}

/// Decimal notation grows by its last digit: the notation of `10 n + d`
/// (for a positive `n` and a digit `d`) is that of `n` followed by `d`, and
/// every digit is written with one character.
pub proof fn lemma_decimal_appends_last_digit(n: nat, d: nat)
    requires
        1 <= n,
        d < 10,
    ensures
        decimal(10 * n + d) == decimal(n) + digit_text(d),
        digit_text(d).len() == 1,
{
    assert((10 * n + d) / 10 == n && (10 * n + d) % 10 == d) by (nonlinear_arith)
        requires
            d < 10,
    ;
    reveal_strlit("0");
    reveal_strlit("1");
    reveal_strlit("2");
    reveal_strlit("3");
    reveal_strlit("4");
    reveal_strlit("5");
    reveal_strlit("6");
    reveal_strlit("7");
    reveal_strlit("8");
    reveal_strlit("9");
}

} // verus!
