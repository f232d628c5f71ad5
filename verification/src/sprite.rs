//! Which picture a client draws for a being.

use vstd::prelude::*;
use vstd::string::*;
use crate::being::Class;

verus! {

/// Width and height in pixels.
#[derive(Clone, Copy, Debug, PartialEq, Eq, Structural)]
pub struct Size {
    pub w: u32,
    pub h: u32,
}

impl Size {
    pub fn new(w: u32, h: u32) -> (size: Size)
        ensures
            size.w == w,
            size.h == h,
    {
        Size { w, h }
    }
}

/// A picture: the file that holds it and its size in that file.
#[derive(Debug)]
pub struct SpriteDef {
    pub path: String,
    pub size: Size,
}

impl SpriteDef {
    /// The file of the picture of a class.
    pub open spec fn path_of(class: Class) -> Seq<char> {
        match class {
            Class::Golem => "Golem_01_Idle_000.png"@,
            Class::Mage => "mage-idle1.png"@,
        }
    }

    /// The size of the picture of a class.
    pub open spec fn size_of(class: Class) -> Size {
        match class {
            Class::Golem => Size { w: 720, h: 480 },
            Class::Mage => Size { w: 128, h: 128 },
        }
    }

    pub fn new(path: String, size: Size) -> (sprite: SpriteDef)
        ensures
            sprite.path == path,
            sprite.size == size,
    {
        SpriteDef { path, size }
    }

    /// The picture of a class.
    pub fn of(class: Class) -> (sprite: SpriteDef)
        ensures
            sprite.path@ == SpriteDef::path_of(class),
            sprite.size == SpriteDef::size_of(class),
    {
        match class {
            Class::Golem => SpriteDef::new(
                String::from_str("Golem_01_Idle_000.png"),
                Size::new(720, 480),
            ),
            Class::Mage => SpriteDef::new(String::from_str("mage-idle1.png"), Size::new(128, 128)),
        }
    }
}

} // verus!
