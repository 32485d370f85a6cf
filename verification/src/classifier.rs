use vstd::prelude::*;
use vstd::string::*;
use crate::imagework::{bitline, bitline_spec, bitmap, bitmap_spec, Graymap, Pixmap};
use crate::types::ScreenCoords;

verus! {

/// Recognises entities by their title; it keeps the directory it reads its
/// samples from.
pub struct Classifier {
    basepath: String,
}

impl Classifier {
    /// The directory the classifier was made with.
    pub closed spec fn basepath(&self) -> Seq<char> {
        self.basepath@
    }

    pub fn new(basepath: &str) -> (res: Classifier)
        ensures
            res.basepath() == basepath@,
    {
        Classifier { basepath: String::from_str(basepath) }
    }
}

/// The title of an entity as black and white pixels: the title block, and
/// the row through the quality rhombus.
pub struct EntityMeta {
    pub bitmap: Graymap,
    pub bitline: Vec<u8>,
    pub text: String,
}

impl EntityMeta {
    /// Takes the title block of `src` (layout `sc`) starting at column
    /// `cx`, and the rhombus row from the same column, keeping only pixels
    /// of luminance 254 or more.
    pub fn from_image(src: &Pixmap, sc: &ScreenCoords, cx: u32) -> (res: EntityMeta)
        requires
            sc.title_top <= sc.title_bottom,
            sc.title_width == 0 || sc.title_bottom == sc.title_top || (cx + sc.title_width <= src@.width
                && sc.title_bottom <= src@.height),
            sc.title_width * (sc.title_bottom - sc.title_top) <= usize::MAX,
            sc.title_width == 0 || (cx + sc.title_width <= src@.width && sc.rhombus_cy < src@.height),
        ensures
            res.bitmap@.width == sc.title_width,
            res.bitmap@.height == sc.title_bottom - sc.title_top,
            res.bitmap@.pixels == bitmap_spec(
                src@,
                cx,
                sc.title_top,
                sc.title_width,
                (sc.title_bottom - sc.title_top) as u32,
                254,
            ),
            res.bitline@ == bitline_spec(src@, cx, sc.rhombus_cy, sc.title_width, 254),
            res.text@ == "Undefined"@,
    {
        EntityMeta {
            bitmap: bitmap(src, cx, sc.title_top, sc.title_width, sc.title_bottom - sc.title_top, 254),
            bitline: bitline(src, cx, sc.rhombus_cy, sc.title_width, 254),
            text: String::from_str("Undefined"),
        }
    }
}

} // verus!
