//! Render configuration, particle presets and rain types.

use crate::text::{all_ascii, ascii_lowercase, decimal_chars, lowercase, str_eq, to_lowercase};
use vstd::prelude::*;
use vstd::string::StringSliceAdditionalSpecFns;
use vstd::utf8::is_char_boundary;

verus! {

/// Lowest accepted output width in pixels.
pub const MIN_WIDTH: u32 = 360;
/// Highest accepted output width in pixels.
pub const MAX_WIDTH: u32 = 3840;
/// Lowest accepted output height in pixels.
pub const MIN_HEIGHT: u32 = 360;
/// Highest accepted output height in pixels.
pub const MAX_HEIGHT: u32 = 2160;
/// Lowest accepted frame rate.
pub const MIN_FPS: u32 = 24;
/// Highest accepted frame rate.
pub const MAX_FPS: u32 = 120;
/// Shortest accepted duration in seconds.
pub const MIN_DURATION_SECS: u32 = 1;
/// Longest accepted duration in seconds.
pub const MAX_DURATION_SECS: u32 = 60;
/// Fewest particles a render may use.
pub const MIN_PARTICLES: u32 = 100;
/// Most particles a render may use.
pub const MAX_PARTICLES: u32 = 5000;

/// Render configuration for output video.
#[derive(Debug, Clone, Copy)]
pub struct RenderConfig {
    /// Output width in pixels
    pub width: u32,
    /// Output height in pixels
    pub height: u32,
    /// Frames per second
    pub fps: u32,
    /// Duration in seconds (for seamless loop)
    pub duration_secs: u32,
    /// Particle count (100-5000 range)
    pub particle_count: u32,
}

/// `v` limited to the closed range `[lo, hi]`.
pub open spec fn clamp_spec(v: u32, lo: u32, hi: u32) -> u32 {
    if v < lo {
        lo
    } else if v > hi {
        hi
    } else {
        v
    }
}

/// `value` limited to the closed range `[lo, hi]`, as `Ord::clamp` computes it.
pub fn clamp_u32(value: u32, lo: u32, hi: u32) -> (r: u32)
    requires
        lo <= hi,
    ensures
        r == clamp_spec(value, lo, hi),
{
    if value < lo {
        lo
    } else if value > hi {
        hi
    } else {
        value
    }
}

/// The render settings used when an intent gives none: 1920x1080 at 60
/// frames per second for 10 seconds, with 5000 particles.
pub open spec fn default_render_config() -> RenderConfig {
    RenderConfig { width: 1920, height: 1080, fps: 60, duration_secs: 10, particle_count: 5000 }
}

impl Default for RenderConfig {
    fn default() -> (r: Self)
        ensures
            r == default_render_config(),
    {
        Self { width: 1920, height: 1080, fps: 60, duration_secs: 10, particle_count: 5000 }
    }
}

impl RenderConfig {
    /// Every field lies in its documented range.
    pub open spec fn is_valid(&self) -> bool {
        &&& MIN_WIDTH <= self.width <= MAX_WIDTH
        &&& MIN_HEIGHT <= self.height <= MAX_HEIGHT
        &&& MIN_FPS <= self.fps <= MAX_FPS
        &&& MIN_DURATION_SECS <= self.duration_secs <= MAX_DURATION_SECS
        &&& MIN_PARTICLES <= self.particle_count <= MAX_PARTICLES
    }

    /// The configuration that `validate` turns `self` into.
    pub open spec fn validated(&self) -> RenderConfig {
        RenderConfig {
            width: clamp_spec(self.width, MIN_WIDTH, MAX_WIDTH),
            height: clamp_spec(self.height, MIN_HEIGHT, MAX_HEIGHT),
            fps: clamp_spec(self.fps, MIN_FPS, MAX_FPS),
            duration_secs: clamp_spec(self.duration_secs, MIN_DURATION_SECS, MAX_DURATION_SECS),
            particle_count: clamp_spec(self.particle_count, MIN_PARTICLES, MAX_PARTICLES),
        }
    }

    /// Validate and clamp particle count to valid range, and every other
    /// field to its own range.
    pub fn validate(&mut self)
        ensures
            *final(self) == old(self).validated(),
            final(self).is_valid(),
            moved_into_range(final(self).width, old(self).width, 360, 3840),
            moved_into_range(final(self).height, old(self).height, 360, 2160),
            moved_into_range(final(self).fps, old(self).fps, 24, 120),
            moved_into_range(final(self).duration_secs, old(self).duration_secs, 1, 60),
            moved_into_range(final(self).particle_count, old(self).particle_count, 100, 5000),
    {
        self.particle_count = clamp_u32(self.particle_count, MIN_PARTICLES, MAX_PARTICLES);
        self.width = clamp_u32(self.width, MIN_WIDTH, MAX_WIDTH);
        self.height = clamp_u32(self.height, MIN_HEIGHT, MAX_HEIGHT);
        self.fps = clamp_u32(self.fps, MIN_FPS, MAX_FPS);
        self.duration_secs = clamp_u32(self.duration_secs, MIN_DURATION_SECS, MAX_DURATION_SECS);
    }
}

impl RenderConfig {
    /// Frames in one loop of the video: its rate times its duration.
    pub fn total_frames(&self) -> (r: u32)
        requires
            self.is_valid(),
        ensures
            r == self.fps * self.duration_secs,
    {
        proof {
            vstd::arithmetic::mul::lemma_mul_upper_bound(
                self.fps as int,
                MAX_FPS as int,
                self.duration_secs as int,
                MAX_DURATION_SECS as int,
            );
        }
        self.fps * self.duration_secs
    }
}

/// The settings a render uses: those of the intent's `render` section,
/// clamped to their ranges, or the defaults where the intent has none.
pub fn render_settings(render: Option<RenderConfig>) -> (r: RenderConfig)
    ensures
        r == (match render {
            Some(c) => c.validated(),
            None => default_render_config(),
        }),
        r.is_valid(),
{
    match render {
        Some(c) => {
            let mut c = c;
            c.validate();
            c
        },
        None => RenderConfig::default(),
    }
}

/// `new` is where `old` lands in the range `[lo, hi]`: unchanged inside it,
/// the maximum above it, the minimum below it.
pub open spec fn moved_into_range(new: u32, old: u32, lo: int, hi: int) -> bool {
    &&& lo <= old <= hi ==> new == old
    &&& old > hi ==> new == hi
    &&& old < lo ==> new == lo
}

/// Validation moves every setting into its documented range and touches
/// nothing else: width 360 to 3840, height 360 to 2160, 24 to 120 frames per
/// second, 1 to 60 seconds and 100 to 5000 particles. A setting inside its
/// range is kept, one above becomes the maximum, one below the minimum.
pub proof fn lemma_validate_moves_into_ranges(c: RenderConfig)
    ensures
        moved_into_range(c.validated().width, c.width, 360, 3840),
        moved_into_range(c.validated().height, c.height, 360, 2160),
        moved_into_range(c.validated().fps, c.fps, 24, 120),
        moved_into_range(c.validated().duration_secs, c.duration_secs, 1, 60),
        moved_into_range(c.validated().particle_count, c.particle_count, 100, 5000),
{
}

/// Clamping a configuration once is enough: validating it again changes
/// nothing.
pub proof fn lemma_validate_idempotent(c: RenderConfig)
    ensures
        c.validated().validated() == c.validated(),
{
}

/// A configuration whose fields all lie in their ranges is left unchanged by
/// validation, and only such a configuration is.
pub proof fn lemma_validate_keeps_valid(c: RenderConfig)
    ensures
        c.is_valid() <==> c.validated() == c,
{
}

/// The default render settings lie within every documented range.
pub proof fn lemma_default_is_valid()
    ensures
        default_render_config().is_valid(),
        default_render_config().validated() == default_render_config(),
{
}

/// The colour a preset is drawn in when its intent names none: opaque white.
pub fn default_color() -> (r: String)
    ensures
        r@ == "#FFFFFF"@,
{
    "#FFFFFF".to_string()
}

/// Lumina-RS particle presets
#[derive(Debug, Clone, Copy, PartialEq, Eq, Structural)]
pub enum Preset {
    CosmicDust,
    Rain,
    Snow,
    Fireflies,
    SunDust,
    Embers,
}

/// The index of each preset in the shaders.
pub open spec fn preset_index(p: Preset) -> u32 {
    match p {
        Preset::CosmicDust => 0,
        Preset::Rain => 1,
        Preset::Snow => 2,
        Preset::Fireflies => 3,
        Preset::SunDust => 4,
        Preset::Embers => 5,
    }
}

/// The preset that a lowercase name denotes: its snake_case name, a few
/// alternative spellings, or its shader index in decimal.
pub open spec fn preset_named(s: Seq<char>) -> Option<Preset> {
    if s == "cosmic_dust"@ || s == "cosmicdust"@ || s == "0"@ {
        Some(Preset::CosmicDust)
    } else if s == "rain"@ || s == "1"@ {
        Some(Preset::Rain)
    } else if s == "snow"@ || s == "2"@ {
        Some(Preset::Snow)
    } else if s == "fireflies"@ || s == "fire_fly"@ || s == "3"@ {
        Some(Preset::Fireflies)
    } else if s == "sun_dust"@ || s == "sundust"@ || s == "4"@ {
        Some(Preset::SunDust)
    } else if s == "embers"@ || s == "5"@ {
        Some(Preset::Embers)
    } else {
        None
    }
}

impl Preset {
    /// Convert preset to shader index (u32)
    pub fn to_shader_index(&self) -> (r: u32)
        ensures
            r == preset_index(*self),
    {
        match self {
            Preset::CosmicDust => 0,
            Preset::Rain => 1,
            Preset::Snow => 2,
            Preset::Fireflies => 3,
            Preset::SunDust => 4,
            Preset::Embers => 5,
        }
    }

    /// Parse an already lowercased name.
    pub fn from_lowercase_name(s: &str) -> (r: Option<Self>)
        ensures
            r == preset_named(s@),
    {
        if str_eq(s, "cosmic_dust") || str_eq(s, "cosmicdust") || str_eq(s, "0") {
            Some(Preset::CosmicDust)
        } else if str_eq(s, "rain") || str_eq(s, "1") {
            Some(Preset::Rain)
        } else if str_eq(s, "snow") || str_eq(s, "2") {
            Some(Preset::Snow)
        } else if str_eq(s, "fireflies") || str_eq(s, "fire_fly") || str_eq(s, "3") {
            Some(Preset::Fireflies)
        } else if str_eq(s, "sun_dust") || str_eq(s, "sundust") || str_eq(s, "4") {
            Some(Preset::SunDust)
        } else if str_eq(s, "embers") || str_eq(s, "5") {
            Some(Preset::Embers)
        } else {
            None
        }
    }

    /// Parse from string (case-insensitive)
    pub fn from_str(s: &str) -> (r: Option<Self>)
        ensures
            r == preset_named(lowercase(s@)),
            all_ascii(s@) ==> r == preset_named(ascii_lowercase(s@)),
    {
        let lower = to_lowercase(s);
        Self::from_lowercase_name(lower.as_str())
    }
}

/// The snake_case name of a preset, as intents spell it.
pub open spec fn preset_name(p: Preset) -> Seq<char> {
    match p {
        Preset::CosmicDust => "cosmic_dust"@,
        Preset::Rain => "rain"@,
        Preset::Snow => "snow"@,
        Preset::Fireflies => "fireflies"@,
        Preset::SunDust => "sun_dust"@,
        Preset::Embers => "embers"@,
    }
}

/// The other spelling a preset is accepted under (its snake_case name where
/// it has none).
pub open spec fn preset_alias(p: Preset) -> Seq<char> {
    match p {
        Preset::CosmicDust => "cosmicdust"@,
        Preset::Fireflies => "fire_fly"@,
        Preset::SunDust => "sundust"@,
        _ => preset_name(p),
    }
}

/// Exactly three spellings denote a preset: its snake_case name, its other
/// spelling, and its shader index in decimal. Every other lowercase string
/// denotes none.
pub proof fn lemma_preset_names_exact(s: Seq<char>, p: Preset)
    ensures
        preset_named(s) == Some(p) <==> (s == preset_name(p) || s == preset_alias(p) || s
            == decimal_chars(preset_index(p) as nat)),
{
    lemma_preset_names_round_trip(p);
    reveal_strlit("cosmic_dust");
    reveal_strlit("cosmicdust");
    reveal_strlit("rain");
    reveal_strlit("snow");
    reveal_strlit("fireflies");
    reveal_strlit("fire_fly");
    reveal_strlit("sun_dust");
    reveal_strlit("sundust");
    reveal_strlit("embers");
    reveal_strlit("0");
    reveal_strlit("1");
    reveal_strlit("2");
    reveal_strlit("3");
    reveal_strlit("4");
    reveal_strlit("5");
    assert(decimal_chars(preset_index(p) as nat) =~= seq![crate::text::digit_char(preset_index(p) as nat)]);
    assert(decimal_chars(0) =~= "0"@);
    assert(decimal_chars(1) =~= "1"@);
    assert(decimal_chars(2) =~= "2"@);
    assert(decimal_chars(3) =~= "3"@);
    assert(decimal_chars(4) =~= "4"@);
    assert(decimal_chars(5) =~= "5"@);
    assert("cosmicdust"@[0] != "fire_fly"@[0] && "cosmicdust"@[0] != "sundust"@[0]);
    assert("fire_fly"@[0] != "sundust"@[0]);
    assert("sundust"@[1] != "snow"@[1]);
    assert("sundust"@[0] != "cosmic_dust"@[0]);
    assert("sundust"@[0] != "fireflies"@[0]);
    assert("fire_fly"@[0] != "rain"@[0] && "fire_fly"@[0] != "snow"@[0] && "fire_fly"@[0] != "cosmic_dust"@[0]);
}

/// Distinct presets have distinct shader indices, all below six.
pub proof fn lemma_preset_index_injective(p: Preset, q: Preset)
    ensures
        preset_index(p) < 6,
        preset_index(p) == preset_index(q) ==> p == q,
{
}

/// Every preset is found again from its snake_case name and from its shader
/// index written in decimal.
pub proof fn lemma_preset_names_round_trip(p: Preset)
    ensures
        preset_named(preset_name(p)) == Some(p),
        preset_named(decimal_chars(preset_index(p) as nat)) == Some(p),
{
    reveal_strlit("cosmic_dust");
    reveal_strlit("cosmicdust");
    reveal_strlit("rain");
    reveal_strlit("snow");
    reveal_strlit("fireflies");
    reveal_strlit("fire_fly");
    reveal_strlit("sun_dust");
    reveal_strlit("sundust");
    reveal_strlit("embers");
    reveal_strlit("0");
    reveal_strlit("1");
    reveal_strlit("2");
    reveal_strlit("3");
    reveal_strlit("4");
    reveal_strlit("5");
    match p {
        Preset::CosmicDust => {
            assert(decimal_chars(0) =~= "0"@);
        },
        Preset::Rain => {
            assert(decimal_chars(1) =~= "1"@);
            assert("rain"@[0] != "cosmic_dust"@[0]);
            assert("rain"@[0] != "cosmicdust"@[0]);
            assert("rain"@[0] != "0"@[0]);
            assert("1"@[0] != "0"@[0]);
        },
        Preset::Snow => {
            assert(decimal_chars(2) =~= "2"@);
            assert("snow"@[0] != "rain"@[0]);
            assert("2"@[0] != "1"@[0]);
            assert("2"@[0] != "0"@[0]);
        },
        Preset::Fireflies => {
            assert(decimal_chars(3) =~= "3"@);
            assert("fireflies"@[0] != "rain"@[0]);
            assert("fireflies"@[0] != "snow"@[0]);
            assert("3"@[0] != "2"@[0]);
            assert("3"@[0] != "1"@[0]);
            assert("3"@[0] != "0"@[0]);
        },
        Preset::SunDust => {
            assert(decimal_chars(4) =~= "4"@);
            assert("sun_dust"@[1] != "snow"@[1]);
            assert("sun_dust"@[0] != "cosmic_dust"@[0]);
            assert("sun_dust"@[0] != "fire_fly"@[0]);
            assert("4"@[0] != "3"@[0]);
            assert("4"@[0] != "2"@[0]);
            assert("4"@[0] != "1"@[0]);
            assert("4"@[0] != "0"@[0]);
        },
        Preset::Embers => {
            assert(decimal_chars(5) =~= "5"@);
            assert("embers"@[0] != "cosmic_dust"@[0]);
            assert("embers"@[0] != "rain"@[0]);
            assert("embers"@[0] != "snow"@[0]);
            assert("embers"@[0] != "sundust"@[0]);
            assert("5"@[0] != "4"@[0]);
            assert("5"@[0] != "3"@[0]);
            assert("5"@[0] != "2"@[0]);
            assert("5"@[0] != "1"@[0]);
            assert("5"@[0] != "0"@[0]);
        },
    }
}

/// Rain type variants
#[derive(Debug, Clone, Copy, PartialEq, Eq, Structural)]
pub enum RainType {
    Drizzle,
    Normal,
    Heavy,
    Storm,
}

/// The index of each rain type in the shaders.
pub open spec fn rain_type_index(t: RainType) -> u32 {
    match t {
        RainType::Drizzle => 0,
        RainType::Normal => 1,
        RainType::Heavy => 2,
        RainType::Storm => 3,
    }
}

/// The rain type that a lowercase name denotes: its name or its index in
/// decimal.
pub open spec fn rain_type_named(s: Seq<char>) -> Option<RainType> {
    if s == "drizzle"@ || s == "0"@ {
        Some(RainType::Drizzle)
    } else if s == "normal"@ || s == "1"@ {
        Some(RainType::Normal)
    } else if s == "heavy"@ || s == "2"@ {
        Some(RainType::Heavy)
    } else if s == "storm"@ || s == "3"@ {
        Some(RainType::Storm)
    } else {
        None
    }
}

impl RainType {
    /// Parse an already lowercased name.
    pub fn from_lowercase_name(s: &str) -> (r: Option<Self>)
        ensures
            r == rain_type_named(s@),
    {
        if str_eq(s, "drizzle") || str_eq(s, "0") {
            Some(RainType::Drizzle)
        } else if str_eq(s, "normal") || str_eq(s, "1") {
            Some(RainType::Normal)
        } else if str_eq(s, "heavy") || str_eq(s, "2") {
            Some(RainType::Heavy)
        } else if str_eq(s, "storm") || str_eq(s, "3") {
            Some(RainType::Storm)
        } else {
            None
        }
    }

    /// Parse from string (case-insensitive)
    pub fn from_str(s: &str) -> (r: Option<Self>)
        ensures
            r == rain_type_named(lowercase(s@)),
            all_ascii(s@) ==> r == rain_type_named(ascii_lowercase(s@)),
    {
        let lower = to_lowercase(s);
        Self::from_lowercase_name(lower.as_str())
    }
}

/// The lowercase name of a rain type.
pub open spec fn rain_type_name(t: RainType) -> Seq<char> {
    match t {
        RainType::Drizzle => "drizzle"@,
        RainType::Normal => "normal"@,
        RainType::Heavy => "heavy"@,
        RainType::Storm => "storm"@,
    }
}

/// Every rain type is found again from its name and from its shader index
/// written in decimal.
pub proof fn lemma_rain_type_names_round_trip(t: RainType)
    ensures
        rain_type_named(rain_type_name(t)) == Some(t),
        rain_type_named(decimal_chars(rain_type_index(t) as nat)) == Some(t),
{
    reveal_strlit("drizzle");
    reveal_strlit("normal");
    reveal_strlit("heavy");
    reveal_strlit("storm");
    reveal_strlit("0");
    reveal_strlit("1");
    reveal_strlit("2");
    reveal_strlit("3");
    match t {
        RainType::Drizzle => {
            assert(decimal_chars(0) =~= "0"@);
        },
        RainType::Normal => {
            assert(decimal_chars(1) =~= "1"@);
            assert("normal"@[0] != "drizzle"@[0]);
            assert("1"@[0] != "0"@[0]);
        },
        RainType::Heavy => {
            assert(decimal_chars(2) =~= "2"@);
            assert("heavy"@[0] != "drizzle"@[0]);
            assert("heavy"@[0] != "normal"@[0]);
            assert("2"@[0] != "1"@[0]);
            assert("2"@[0] != "0"@[0]);
        },
        RainType::Storm => {
            assert(decimal_chars(3) =~= "3"@);
            assert("storm"@[0] != "drizzle"@[0]);
            assert("storm"@[0] != "normal"@[0]);
            assert("storm"@[0] != "heavy"@[0]);
            assert("3"@[0] != "2"@[0]);
            assert("3"@[0] != "1"@[0]);
            assert("3"@[0] != "0"@[0]);
        },
    }
}

/// Exactly two spellings denote a rain type: its name and its shader index
/// in decimal. Every other lowercase string denotes none.
pub proof fn lemma_rain_type_names_exact(s: Seq<char>, t: RainType)
    ensures
        rain_type_named(s) == Some(t) <==> (s == rain_type_name(t) || s == decimal_chars(
            rain_type_index(t) as nat,
        )),
{
    lemma_rain_type_names_round_trip(t);
    reveal_strlit("drizzle");
    reveal_strlit("normal");
    reveal_strlit("heavy");
    reveal_strlit("storm");
    reveal_strlit("0");
    reveal_strlit("1");
    reveal_strlit("2");
    reveal_strlit("3");
    assert(decimal_chars(0) =~= "0"@);
    assert(decimal_chars(1) =~= "1"@);
    assert(decimal_chars(2) =~= "2"@);
    assert(decimal_chars(3) =~= "3"@);
}

/// The shader index of an optional rain type; a missing one renders as
/// normal rain.
pub fn rain_type_shader_index(rain_type: Option<RainType>) -> (r: u32)
    ensures
        r == match rain_type {
            Some(t) => rain_type_index(t),
            None => 1,
        },
{
    match rain_type {
        Some(RainType::Drizzle) => 0,
        Some(RainType::Normal) => 1,
        Some(RainType::Heavy) => 2,
        Some(RainType::Storm) => 3,
        None => 1, // default to normal
    }
}

/// Index of the first byte at or after `i` that is not `#`: where a colour
/// starts once its leading `#` signs are trimmed.
pub open spec fn hex_start(b: Seq<u8>, i: int) -> int
    decreases b.len() - i,
{
    if i < 0 || i >= b.len() {
        i
    } else if b[i] == 35 {
        hex_start(b, i + 1)
    } else {
        i
    }
}

/// Value of a hexadecimal digit byte (`0-9`, `a-f`, `A-F`).
pub open spec fn hex_digit(c: u8) -> Option<u8> {
    if 48 <= c <= 57 {
        Some((c - 48) as u8)
    } else if 97 <= c <= 102 {
        Some((c - 87) as u8)
    } else if 65 <= c <= 70 {
        Some((c - 55) as u8)
    } else {
        None
    }
}

/// What `u8::from_str_radix(_, 16)` gives for a two-byte string: an optional
/// `+` followed by one digit, or two digits.
pub open spec fn hex_pair(c0: u8, c1: u8) -> Option<u8> {
    if c0 == 43 {
        hex_digit(c1)
    } else {
        match (hex_digit(c0), hex_digit(c1)) {
            (Some(h), Some(l)) => Some((16 * h + l) as u8),
            _ => None,
        }
    }
}

/// A channel of a colour: the pair of bytes at `i`, or 255 where they are
/// not a hexadecimal number.
pub open spec fn hex_channel(b: Seq<u8>, i: int) -> u8 {
    match hex_pair(b[i], b[i + 1]) {
        Some(v) => v,
        None => 255,
    }
}

/// The string slicing that reads a colour stays on character boundaries:
/// after the leading `#` signs there are at least six bytes, and the pairs
/// begin and end where characters do.
pub open spec fn hex_color_readable(b: Seq<u8>) -> bool {
    let k = hex_start(b, 0);
    &&& b.len() >= k + 6
    &&& is_char_boundary(b, k + 2)
    &&& is_char_boundary(b, k + 4)
    &&& is_char_boundary(b, k + 6)
    &&& b.len() >= k + 8 ==> is_char_boundary(b, k + 8)
}

/// The RGBA channels that a colour written `#RRGGBB` or `#RRGGBBAA` denotes:
/// a channel that is not a hexadecimal number reads as 255, and a missing
/// alpha as opaque.
pub open spec fn hex_rgba(b: Seq<u8>) -> [u8; 4] {
    let k = hex_start(b, 0);
    [
        hex_channel(b, k),
        hex_channel(b, k + 2),
        hex_channel(b, k + 4),
        if b.len() >= k + 8 { hex_channel(b, k + 6) } else { 255 },
    ]
}

/// The uppercase hexadecimal digit byte of `v` (below 16).
pub open spec fn upper_hex_digit(v: u8) -> u8 {
    if v < 10 {
        (48 + v) as u8
    } else {
        (55 + v) as u8
    }
}

/// The bytes of `#RRGGBB` for the given channels, in uppercase hexadecimal.
pub open spec fn rgb_hex_bytes(r: u8, g: u8, b: u8) -> Seq<u8> {
    seq![
        35u8,
        upper_hex_digit(r / 16),
        upper_hex_digit(r % 16),
        upper_hex_digit(g / 16),
        upper_hex_digit(g % 16),
        upper_hex_digit(b / 16),
        upper_hex_digit(b % 16),
    ]
}

/// A colour written `#RRGGBB` reads back as its three channels, opaque.
pub proof fn lemma_hex_rgb_round_trip(r: u8, g: u8, b: u8)
    ensures
        hex_rgba(rgb_hex_bytes(r, g, b)) == [r, g, b, 255u8],
{
    let s = rgb_hex_bytes(r, g, b);
    assert(hex_start(s, 1) == 1);
    assert(hex_start(s, 0) == 1);
    assert(hex_rgba(s) =~= [r, g, b, 255u8]);
}

/// The lowercase hexadecimal digit byte of `v` (below 16).
pub open spec fn lower_hex_digit(v: u8) -> u8 {
    if v < 10 {
        (48 + v) as u8
    } else {
        (87 + v) as u8
    }
}

/// The bytes of `#rrggbbaa` for the given channels, in lowercase
/// hexadecimal.
pub open spec fn rgba_lower_hex_bytes(r: u8, g: u8, b: u8, a: u8) -> Seq<u8> {
    seq![
        35u8,
        lower_hex_digit(r / 16),
        lower_hex_digit(r % 16),
        lower_hex_digit(g / 16),
        lower_hex_digit(g % 16),
        lower_hex_digit(b / 16),
        lower_hex_digit(b % 16),
        lower_hex_digit(a / 16),
        lower_hex_digit(a % 16),
    ]
}

/// A colour written `#rrggbbaa` in lowercase reads back as its four
/// channels.
pub proof fn lemma_hex_rgba_lower_round_trip(r: u8, g: u8, b: u8, a: u8)
    ensures
        hex_rgba(rgba_lower_hex_bytes(r, g, b, a)) == [r, g, b, a],
{
    let s = rgba_lower_hex_bytes(r, g, b, a);
    assert(hex_start(s, 1) == 1);
    assert(hex_start(s, 0) == 1);
    assert(hex_rgba(s) =~= [r, g, b, a]);
}

/// Letter case does not matter in a hexadecimal digit: `a`-`f` and `A`-`F`
/// both stand for 10 to 15, and the decimal digits for 0 to 9. Every value
/// below 16 has exactly these two spellings (one when it is below 10).
pub proof fn lemma_hex_digit_case(c: u8, v: u8)
    requires
        v < 16,
    ensures
        97 <= c <= 102 ==> hex_digit(c) == hex_digit((c - 32) as u8) && hex_digit(c) == Some((c - 87) as u8),
        hex_digit(upper_hex_digit(v)) == Some(v),
        hex_digit(lower_hex_digit(v)) == Some(v),
        hex_digit(c) == Some(v) ==> c == upper_hex_digit(v) || c == lower_hex_digit(v),
{
}

/// A channel written as two digits reads as the first digit times sixteen
/// plus the second, in either letter case; a `+` followed by one digit reads
/// as that digit; a pair that is neither reads as 255.
pub proof fn lemma_hex_pair_meaning(hi: u8, lo: u8, upper_hi: bool, upper_lo: bool, c0: u8, c1: u8)
    requires
        hi < 16,
        lo < 16,
    ensures
        ({
            let d0 = if upper_hi { upper_hex_digit(hi) } else { lower_hex_digit(hi) };
            let d1 = if upper_lo { upper_hex_digit(lo) } else { lower_hex_digit(lo) };
            &&& hex_pair(d0, d1) == Some((16 * hi + lo) as u8)
            &&& hex_pair(43, d1) == Some(lo)
        }),
        hex_pair(c0, c1) is Some ==> hex_digit(c1) is Some && (c0 == 43 || hex_digit(c0) is Some),
        hex_pair(c0, c1) is None ==> hex_channel(seq![c0, c1], 0) == 255,
{
}

fn hex_digit_value(c: u8) -> (r: Option<u8>)
    ensures
        r == hex_digit(c),
{
    if 48 <= c && c <= 57 {
        Some(c - 48)
    } else if 97 <= c && c <= 102 {
        Some(c - 87)
    } else if 65 <= c && c <= 70 {
        Some(c - 55)
    } else {
        None
    }
}

fn hex_pair_value(c0: u8, c1: u8) -> (r: u8)
    ensures
        r == (match hex_pair(c0, c1) {
            Some(v) => v,
            None => 255,
        }),
{
    if c0 == 43 {
        match hex_digit_value(c1) {
            Some(v) => v,
            None => 255,
        }
    } else {
        match (hex_digit_value(c0), hex_digit_value(c1)) {
            (Some(h), Some(l)) => 16 * h + l,
            _ => 255,
        }
    }
}

/// Convert a hex colour (`#RRGGBB`, optionally `#RRGGBBAA`) to its RGBA
/// channels.
pub fn hex_to_rgba8(hex: &str) -> (r: [u8; 4])
    requires
        hex_color_readable(hex.spec_bytes()),
    ensures
        r == hex_rgba(hex.spec_bytes()),
{
    let b = hex.as_bytes();
    let mut k: usize = 0;
    while k < b.len() && b[k] == 35
        invariant
            k <= b@.len(),
            hex_start(b@, k as int) == hex_start(b@, 0),
        decreases b@.len() - k,
    {
        k = k + 1;
    }
    let red = hex_pair_value(b[k], b[k + 1]);
    let green = hex_pair_value(b[k + 2], b[k + 3]);
    let blue = hex_pair_value(b[k + 4], b[k + 5]);
    let alpha = if b.len() - k >= 8 { hex_pair_value(b[k + 6], b[k + 7]) } else { 255 };
    [red, green, blue, alpha]
}

} // verus!
