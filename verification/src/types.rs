use vstd::prelude::*;
use vstd::string::*;
use crate::imagework::Pixmap;
use std::time::Instant;

verus! {

/// Coordinate value of a [`Meta`] whose position is not known.
pub const NO_COORD: u32 = 9999999;

/// An 8-bit colour with alpha, as the display side uses it.
#[derive(Clone, Copy, Debug, PartialEq, Eq, Structural)]
pub struct Color32 {
    pub r: u8,
    pub g: u8,
    pub b: u8,
    pub a: u8,
}

impl Color32 {
    /// An opaque colour.
    pub fn from_rgb(r: u8, g: u8, b: u8) -> (res: Color32)
        ensures
            res == (Color32 { r, g, b, a: 255 }),
    {
        Color32 { r, g, b, a: 255 }
    }

    pub fn r(&self) -> (res: u8)
        ensures
            res == self.r,
    {
        self.r
    }

    pub fn g(&self) -> (res: u8)
        ensures
            res == self.g,
    {
        self.g
    }

    pub fn b(&self) -> (res: u8)
        ensures
            res == self.b,
    {
        self.b
    }
}

#[derive(PartialEq, Eq, Clone, Copy, Debug, Structural)]
pub enum ViewType {
    Unknown,
    Normal,
    Auger,
}

pub enum EntityGroup {
    Unknown,
    Resources,
    Buildings,
    Containers,
    Bosses,
    Mobs,
    Apes,
}

#[derive(PartialEq, Eq, Clone, Copy, Debug, Structural)]
pub enum Entity {
    Unknown,
    // resources
    Bush,
    Corn,
    Poppy,
    Aloe,
    Cattail,
    Cotton,
    BloodTurnip,
    BurntBush,
    VolcanicPlant,
    Pebble,
    Rock,
    Sulfur,
    Obsidian,
    Cactus,
    CactusTree,
    Palm,
    Tree,
    Driftwood,
    Bones,
    RedwoodTree,
    BurntTree,
    Mushroom,
    Vine,
    IronOre,
    GlowingOre,
    ClayDeposit,
    // buildings
    AncientFabricator,
    // containers
    AmmoBox,
    Urn,
    LootStash,
    Warehouse,
    LargeCase,
    // bosses
    Lazaward,
    ToxicWarPapak,
    WarOkkam,
    Koa,
    Gogo,
    // mobs
    Nurr,
    Phemke,
    // apes
    RupuAshdweller,
    RupuPlainstrider,
    RupuHarraser,
    RupuSeeker,
    RupuScuttler,
    RupuFirebrand,
    RupuDrudge,
    RupuHazraki,
}

/// The display name of an entity: only a few entities have one of their
/// own, every other one is "Unhandled".
pub open spec fn entity_name(e: Entity) -> Seq<char> {
    match e {
        Entity::Unknown => "Unknown"@,
        Entity::Bush => "Bush"@,
        Entity::Driftwood => "Driftwood"@,
        Entity::Rock => "Rock"@,
        _ => "Unhandled"@,
    }
}

impl Entity {
    pub fn to_str(self) -> (res: &'static str)
        ensures
            res@ == entity_name(self),
    {
        match self {
            Entity::Unknown => "Unknown",
            Entity::Bush => "Bush",
            Entity::Driftwood => "Driftwood",
            Entity::Rock => "Rock",
            _ => "Unhandled",
        }
    }
}

/// Quality tier of an item, from the least to the most valuable.
#[derive(PartialEq, Eq, PartialOrd, Ord, Clone, Copy, Debug, Structural)]
pub enum Quality {
    Unknown,
    Common,
    Uncommon,
    Rare,
    Epic,
    Legendary,
}

/// The name of a quality, as `to_str` gives it and `from_str` reads it.
pub open spec fn quality_name(q: Quality) -> Seq<char> {
    match q {
        Quality::Unknown => "Unknown"@,
        Quality::Common => "Common"@,
        Quality::Uncommon => "Uncommon"@,
        Quality::Rare => "Rare"@,
        Quality::Epic => "Epic"@,
        Quality::Legendary => "Legendary"@,
    }
}

/// The quality whose name is `s`, if there is one.
pub open spec fn quality_from_name(s: Seq<char>) -> Option<Quality> {
    if s == "Unknown"@ {
        Some(Quality::Unknown)
    } else if s == "Common"@ {
        Some(Quality::Common)
    } else if s == "Uncommon"@ {
        Some(Quality::Uncommon)
    } else if s == "Rare"@ {
        Some(Quality::Rare)
    } else if s == "Epic"@ {
        Some(Quality::Epic)
    } else if s == "Legendary"@ {
        Some(Quality::Legendary)
    } else {
        None
    }
}

/// The colour in which the game draws each quality (and grey for none).
pub open spec fn quality_color(q: Quality) -> Color32 {
    match q {
        Quality::Unknown => Color32 { r: 128, g: 128, b: 128, a: 255 },
        Quality::Common => Color32 { r: 255, g: 255, b: 255, a: 255 },
        Quality::Uncommon => Color32 { r: 48, g: 218, b: 120, a: 255 },
        Quality::Rare => Color32 { r: 0, g: 113, b: 218, a: 255 },
        Quality::Epic => Color32 { r: 218, g: 64, b: 166, a: 255 },
        Quality::Legendary => Color32 { r: 218, g: 159, b: 57, a: 255 },
    }
}

fn str_is(s: &String, lit: &str) -> (res: bool)
    ensures
        res == (s@ == lit@),
{
    *s == lit.to_owned()
}

impl Quality {
    pub fn from_str(s: &str) -> (res: Option<Quality>)
        ensures
            res == quality_from_name(s@),
    {
        let owned = s.to_owned();
        if str_is(&owned, "Unknown") {
            Some(Quality::Unknown)
        } else if str_is(&owned, "Common") {
            Some(Quality::Common)
        } else if str_is(&owned, "Uncommon") {
            Some(Quality::Uncommon)
        } else if str_is(&owned, "Rare") {
            Some(Quality::Rare)
        } else if str_is(&owned, "Epic") {
            Some(Quality::Epic)
        } else if str_is(&owned, "Legendary") {
            Some(Quality::Legendary)
        } else {
            None
        }
    }

    pub fn to_str(self) -> (res: &'static str)
        ensures
            res@ == quality_name(self),
    {
        match self {
            Quality::Unknown => "Unknown",
            Quality::Common => "Common",
            Quality::Uncommon => "Uncommon",
            Quality::Rare => "Rare",
            Quality::Epic => "Epic",
            Quality::Legendary => "Legendary",
        }
    }

    pub fn to_color32(self) -> (res: Color32)
        ensures
            res == quality_color(self),
    {
        match self {
            Quality::Unknown => Color32::from_rgb(128, 128, 128),
            Quality::Common => Color32::from_rgb(255, 255, 255),
            Quality::Uncommon => Color32::from_rgb(48, 218, 120),
            Quality::Rare => Color32::from_rgb(0, 113, 218),
            Quality::Epic => Color32::from_rgb(218, 64, 166),
            Quality::Legendary => Color32::from_rgb(218, 159, 57),
        }
    }
}

/// Names and qualities are in one-to-one correspondence: reading the name
/// of a quality gives that quality back, and a name that reads as a
/// quality is that quality's name.
pub proof fn lemma_quality_name_roundtrip(q: Quality, s: Seq<char>)
    ensures
        quality_from_name(quality_name(q)) == Some(q),
        quality_from_name(s) == Some(q) ==> s == quality_name(q),
{
    reveal_strlit("Unknown");
    reveal_strlit("Common");
    reveal_strlit("Uncommon");
    reveal_strlit("Rare");
    reveal_strlit("Epic");
    reveal_strlit("Legendary");
    // the names differ pairwise, in length or in their first letter
    assert("Common"@[0] != "Unknown"@[0]);
    assert("Rare"@[0] != "Epic"@[0]);
    assert("Unknown"@.len() != "Uncommon"@.len());
    assert("Uncommon"@[0] != "Legendary"@[0]);
    assert("Rare"@[0] != "Legendary"@[0]);
    assert("Unknown"@ != "Common"@ && "Unknown"@ != "Uncommon"@ && "Unknown"@ != "Rare"@);
    assert("Unknown"@ != "Epic"@ && "Unknown"@ != "Legendary"@);
    assert("Common"@ != "Uncommon"@ && "Common"@ != "Rare"@ && "Common"@ != "Epic"@);
    assert("Common"@ != "Legendary"@ && "Uncommon"@ != "Rare"@ && "Uncommon"@ != "Epic"@);
    assert("Uncommon"@ != "Legendary"@ && "Rare"@ != "Epic"@ && "Rare"@ != "Legendary"@);
    assert("Epic"@ != "Legendary"@);
}

/// What was recognised on one screenshot.
#[derive(PartialEq, Eq, Clone, Copy, Debug, Structural)]
pub struct Meta {
    pub quality: Quality,
    pub entity: Entity,
    pub x: u32,
    pub y: u32,
    pub z: u32,
    pub a: u32,
}

pub open spec fn empty_meta() -> Meta {
    Meta {
        quality: Quality::Unknown,
        entity: Entity::Unknown,
        x: NO_COORD,
        y: NO_COORD,
        z: NO_COORD,
        a: NO_COORD,
    }
}

/// Two recognitions are the same when they name the same quality and the
/// same entity; positions do not count.
pub open spec fn same_meta(a: Meta, b: Meta) -> bool {
    a.quality == b.quality && a.entity == b.entity
}

impl Meta {
    pub fn empty() -> (res: Meta)
        ensures
            res == empty_meta(),
    {
        Meta {
            quality: Quality::Unknown,
            entity: Entity::Unknown,
            x: NO_COORD,
            y: NO_COORD,
            z: NO_COORD,
            a: NO_COORD,
        }
    }

    pub fn same(&self, other: &Self) -> (res: bool)
        ensures
            res == same_meta(*self, *other),
    {
        (self.quality == other.quality) && (self.entity == other.entity)
    }

    pub fn to_str(&self) -> (res: String)
        ensures
            res@ == "(quality:"@ + quality_name(self.quality) + ", entity:'"@ + entity_name(
                self.entity,
            ) + "')"@,
    {
        let mut s = String::from_str("(quality:");
        s.append(self.quality.to_str());
        s.append(", entity:'");
        s.append(self.entity.to_str());
        s.append("')");
        s
    }
}

/// `same` is an equivalence: every recognition is the same as itself, the
/// relation is symmetric, and it chains.
pub proof fn lemma_same_is_equivalence(a: Meta, b: Meta, c: Meta)
    ensures
        same_meta(a, a),
        same_meta(a, b) ==> same_meta(b, a),
        same_meta(a, b) && same_meta(b, c) ==> same_meta(a, c),
{
}

/// Where the interesting parts of the game screen are, in pixels.
#[derive(Clone, Copy, Debug, PartialEq, Eq, Structural)]
pub struct ScreenCoords {
    pub screen_width: u32,
    pub screen_height: u32,
    /// from the top to the white line on the title (approximately)
    pub title_top: u32,
    /// from the top to the first line that is certainly not part of the title
    pub title_bottom: u32,
    /// widest the title can be
    pub title_width: u32,
    /// from the top to the coordinates block
    pub coords_top: u32,
    /// from the top to the bottom line of the coordinates block
    pub coords_bottom: u32,
    /// right boundary of the coordinates block
    pub coords_right: u32,
    /// left boundary of the coordinates block
    pub coords_left: u32,
    /// row through the centre of the quality rhombus
    pub rhombus_cy: u32,
    /// diagonal of the quality rhombus (give or take 2 px)
    pub rhombus_size: u32,
}

/// The layout measured on a 2560x1440 screen; every other size is scaled
/// from it.
pub open spec fn sd_base_spec() -> ScreenCoords {
    ScreenCoords {
        screen_width: 2560,
        screen_height: 1440,
        title_top: 40,
        title_bottom: 152,
        title_width: 600,
        coords_top: 53,
        coords_bottom: 74,
        coords_right: 2280,
        coords_left: 1840,
        rhombus_cy: 69,
        rhombus_size: 25,
    }
}

pub fn sd_base() -> (res: ScreenCoords)
    ensures
        res == sd_base_spec(),
{
    ScreenCoords {
        screen_width: 2560,
        screen_height: 1440,
        title_top: 40,
        title_bottom: 152,
        title_width: 600,
        coords_top: 53,
        coords_bottom: 74,
        coords_right: 2280,
        coords_left: 1840,
        rhombus_cy: 69,
        rhombus_size: 25,
    }
}

/// Scaling multiplies a base value by the new size in 32 bits: this holds
/// exactly when none of those products overflows (the widest horizontal
/// value is 2280, the tallest vertical one 152).
pub open spec fn scaled_defined(width: u32, height: u32) -> bool {
    2280 * width <= u32::MAX && 152 * height <= u32::MAX
}

/// A horizontal base value scaled to a screen `width` pixels wide.
pub open spec fn scale_w(base: int, width: u32) -> u32 {
    (base * width / 2560) as u32
}

/// A vertical base value scaled to a screen `height` pixels tall.
pub open spec fn scale_h(base: int, height: u32) -> u32 {
    (base * height / 1440) as u32
}

/// The base layout scaled, field by field and rounding down, to a screen of
/// the given size.
pub open spec fn scaled_coords(width: u32, height: u32) -> ScreenCoords {
    ScreenCoords {
        screen_width: width,
        screen_height: height,
        title_top: scale_h(40, height),
        title_bottom: scale_h(152, height),
        title_width: scale_w(600, width),
        coords_top: scale_h(53, height),
        coords_bottom: scale_h(74, height),
        coords_right: scale_w(2280, width),
        coords_left: scale_w(1840, width),
        rhombus_cy: scale_h(69, height),
        rhombus_size: scale_w(25, width),
    }
}

/// The layout used for a screen of the given size: the base layout itself
/// at 2560x1440, the scaled one otherwise (`None` where scaling overflows).
pub open spec fn coords_for_size(width: u32, height: u32) -> Option<ScreenCoords> {
    if width == 2560 && height == 1440 {
        Some(sd_base_spec())
    } else if scaled_defined(width, height) {
        Some(scaled_coords(width, height))
    } else {
        None
    }
}

impl ScreenCoords {
    pub fn scaled(width: u32, height: u32) -> (res: ScreenCoords)
        requires
            scaled_defined(width, height),
        ensures
            res == scaled_coords(width, height),
    {
        ScreenCoords {
            screen_width: width,
            screen_height: height,
            title_top: 40 * height / 1440,
            title_bottom: 152 * height / 1440,
            title_width: 600 * width / 2560,
            coords_top: 53 * height / 1440,
            coords_bottom: 74 * height / 1440,
            coords_right: 2280 * width / 2560,
            coords_left: 1840 * width / 2560,
            rhombus_cy: 69 * height / 1440,
            rhombus_size: 25 * width / 2560,
        }
    }
}

/// Scaling to the base screen size gives the base layout back, so the
/// layout for any size is simply the scaled one.
pub proof fn lemma_scaled_base_is_identity(width: u32, height: u32)
    ensures
        scaled_defined(2560, 1440),
        scaled_coords(2560, 1440) == sd_base_spec(),
        coords_for_size(width, height) == (if scaled_defined(width, height) {
            Some(scaled_coords(width, height))
        } else {
            None
        }),
{
}

/// A scaled layout keeps the shape of the base one: the coordinates block
/// and the title block keep their order, and they stay inside the screen.
pub proof fn lemma_scaled_within_screen(width: u32, height: u32)
    requires
        scaled_defined(width, height),
    ensures
        scaled_coords(width, height).coords_right < width || width == 0,
        scaled_coords(width, height).coords_left <= scaled_coords(width, height).coords_right,
        scaled_coords(width, height).title_top <= scaled_coords(width, height).title_bottom,
        scaled_coords(width, height).title_bottom < height || height == 0,
        scaled_coords(width, height).title_width <= width,
{
}

impl ScreenCoords {
    /// The layout for a screen of the size of `image`.
    pub fn get_for_image(image: &Pixmap) -> (res: ScreenCoords)
        requires
            coords_for_size(image@.width, image@.height) is Some,
        ensures
            Some(res) == coords_for_size(image@.width, image@.height),
    {
        let width = image.width();
        let height = image.height();
        if width == 2560 && height == 1440 {
            sd_base()
        } else {
            ScreenCoords::scaled(width, height)
        }
    }
}

/// Declares `std::time::Instant` so that screenshots can carry their time
/// stamps; nothing inside an instant is visible to proofs.
#[verifier::external_type_specification]
#[verifier::external_body]
pub struct ExInstant(Instant);

/// Calls `std::time::Instant::now`. Nothing is stated of the moment it
/// returns: it depends on the clock.
#[verifier::external_body]
fn now() -> Instant {
    Instant::now()
}

/// A captured screen image on its way through the pipeline, with the
/// moments it was captured, received by the processor and parsed.
pub struct Screenshot {
    pub pit_captured: Instant,
    pub pit_received: Option<Instant>,
    pub pit_parsed: Option<Instant>,
    pub image: Pixmap,
    pub meta: Meta,
}

impl Screenshot {
    /// A screenshot captured now, not yet received nor parsed.
    pub fn new(image: Pixmap) -> (res: Screenshot)
        ensures
            res.image == image,
            res.meta == empty_meta(),
            res.pit_received is None,
            res.pit_parsed is None,
    {
        Screenshot {
            pit_captured: now(),
            pit_received: None,
            pit_parsed: None,
            image: image,
            meta: Meta::empty(),
        }
    }

    /// Notes that the processor has received the screenshot now.
    pub fn set_received(&mut self)
        ensures
            final(self).pit_received is Some,
            final(self).pit_captured == old(self).pit_captured,
            final(self).pit_parsed == old(self).pit_parsed,
            final(self).image == old(self).image,
            final(self).meta == old(self).meta,
    {
        let t = now();
        self.pit_received = Some(t);
    }

    /// Notes that the screenshot has been parsed now.
    pub fn set_parsed(&mut self)
        ensures
            final(self).pit_parsed is Some,
            final(self).pit_captured == old(self).pit_captured,
            final(self).pit_received == old(self).pit_received,
            final(self).image == old(self).image,
            final(self).meta == old(self).meta,
    {
        let t = now();
        self.pit_parsed = Some(t);
    }
}

/// Vertical layout values follow the screen's height alone and horizontal
/// ones its width alone: each is its base value times the new size over
/// the base size (2560 wide, 1440 tall), rounded down, so screens of the
/// same height share their rows whatever their widths, and screens of the
/// same width share their columns whatever their heights.
pub proof fn lemma_scaled_axes_are_independent(w1: u32, w2: u32, h1: u32, h2: u32)
    ensures
        scaled_coords(w1, h1).title_top == scaled_coords(w2, h1).title_top,
        scaled_coords(w1, h1).title_bottom == scaled_coords(w2, h1).title_bottom,
        scaled_coords(w1, h1).coords_top == scaled_coords(w2, h1).coords_top,
        scaled_coords(w1, h1).coords_bottom == scaled_coords(w2, h1).coords_bottom,
        scaled_coords(w1, h1).rhombus_cy == scaled_coords(w2, h1).rhombus_cy,
        scaled_coords(w1, h1).title_width == scaled_coords(w1, h2).title_width,
        scaled_coords(w1, h1).coords_right == scaled_coords(w1, h2).coords_right,
        scaled_coords(w1, h1).coords_left == scaled_coords(w1, h2).coords_left,
        scaled_coords(w1, h1).rhombus_size == scaled_coords(w1, h2).rhombus_size,
        scaled_defined(w1, h1) ==> {
            &&& scaled_coords(w1, h1).title_top == 40 * h1 / 1440
            &&& scaled_coords(w1, h1).title_bottom == 152 * h1 / 1440
            &&& scaled_coords(w1, h1).coords_top == 53 * h1 / 1440
            &&& scaled_coords(w1, h1).coords_bottom == 74 * h1 / 1440
            &&& scaled_coords(w1, h1).rhombus_cy == 69 * h1 / 1440
            &&& scaled_coords(w1, h1).title_width == 600 * w1 / 2560
            &&& scaled_coords(w1, h1).coords_right == 2280 * w1 / 2560
            &&& scaled_coords(w1, h1).coords_left == 1840 * w1 / 2560
            &&& scaled_coords(w1, h1).rhombus_size == 25 * w1 / 2560
            &&& scaled_coords(w1, h1).screen_width == w1
            &&& scaled_coords(w1, h1).screen_height == h1
        },
{
}

} // verus!
