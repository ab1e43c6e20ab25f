use vstd::prelude::*;
use vstd::string::StringExecFns;

verus! {

/// The banner shown by the intro screen: a block of ASCII art with its
/// placement on the frame.  Each art line is `width` characters wide and
/// ends in a `|` guard followed by a newline, so a glyph sits at index
/// `row * (width + 2) + column` of `name`.
pub struct Logo {
    pub name: String,
    pub width: usize,
    pub height: usize,
    pub x: usize,
    pub y: usize,
}

impl Logo {
    /// The stock banner.
    pub fn voida() -> (r: Logo)
        ensures
            r.width == 88,
            r.height == 17,
            r.x == 0,
            r.y == 0,
            r.name@ == "                                                              dddddddd                  |\nVVVVVVVV           VVVVVVVV                 iiii              d::::::d                  |\nV::::::V           V::::::V                i::::i             d::::::d                  |\nV::::::V           V::::::V                 iiii              d::::::d                  |\nV::::::V           V::::::V                                   d:::::d                   |\n V:::::V           V:::::V  ooooooooooo   iiiiiii     ddddddddd:::::d   aaaaaaaaaaaaa   |\n  V:::::V         V:::::V oo:::::::::::oo i:::::i   dd::::::::::::::d   a::::::::::::a  |\n   V:::::V       V:::::V o:::::::::::::::o i::::i  d::::::::::::::::d   aaaaaaaaa:::::a |\n    V:::::V     V:::::V  o:::::ooooo:::::o i::::i d:::::::ddddd:::::d            a::::a |\n     V:::::V   V:::::V   o::::o     o::::o i::::i d::::::d    d:::::d     aaaaaaa:::::a |\n      V:::::V V:::::V    o::::o     o::::o i::::i d:::::d     d:::::d   aa::::::::::::a |\n       V:::::V:::::V     o::::o     o::::o i::::i d:::::d     d:::::d  a::::aaaa::::::a |\n        V:::::::::V      o::::o     o::::o i::::i d:::::d     d:::::d a::::a    a:::::a |\n         V:::::::V       o:::::ooooo:::::o i::::i d::::::ddddd::::::d a::::a    a:::::a |\n          V:::::V        o:::::::::::::::o i::::i  d::::::::::::::::d a:::::aaaa::::::a |\n           V:::V          oo:::::::::::oo i::::::i  d:::::::::ddd::::d a::::::::::aa:::a|\n            VVV             ooooooooooo   iiiiiiii   ddddddddd   ddddd  aaaaaaaaaa  aaaa|"@,
            r.name@.len() == 17 * 90 - 1,
    {
        let name: String = String::from_str(
            "                                                              dddddddd                  |\nVVVVVVVV           VVVVVVVV                 iiii              d::::::d                  |\nV::::::V           V::::::V                i::::i             d::::::d                  |\nV::::::V           V::::::V                 iiii              d::::::d                  |\nV::::::V           V::::::V                                   d:::::d                   |\n V:::::V           V:::::V  ooooooooooo   iiiiiii     ddddddddd:::::d   aaaaaaaaaaaaa   |\n  V:::::V         V:::::V oo:::::::::::oo i:::::i   dd::::::::::::::d   a::::::::::::a  |\n   V:::::V       V:::::V o:::::::::::::::o i::::i  d::::::::::::::::d   aaaaaaaaa:::::a |\n    V:::::V     V:::::V  o:::::ooooo:::::o i::::i d:::::::ddddd:::::d            a::::a |\n     V:::::V   V:::::V   o::::o     o::::o i::::i d::::::d    d:::::d     aaaaaaa:::::a |\n      V:::::V V:::::V    o::::o     o::::o i::::i d:::::d     d:::::d   aa::::::::::::a |\n       V:::::V:::::V     o::::o     o::::o i::::i d:::::d     d:::::d  a::::aaaa::::::a |\n        V:::::::::V      o::::o     o::::o i::::i d:::::d     d:::::d a::::a    a:::::a |\n         V:::::::V       o:::::ooooo:::::o i::::i d::::::ddddd::::::d a::::a    a:::::a |\n          V:::::V        o:::::::::::::::o i::::i  d::::::::::::::::d a:::::aaaa::::::a |\n           V:::V          oo:::::::::::oo i::::::i  d:::::::::ddd::::d a::::::::::aa:::a|\n            VVV             ooooooooooo   iiiiiiii   ddddddddd   ddddd  aaaaaaaaaa  aaaa|",
        );
        proof {
            reveal_strlit(
                "                                                              dddddddd                  |\nVVVVVVVV           VVVVVVVV                 iiii              d::::::d                  |\nV::::::V           V::::::V                i::::i             d::::::d                  |\nV::::::V           V::::::V                 iiii              d::::::d                  |\nV::::::V           V::::::V                                   d:::::d                   |\n V:::::V           V:::::V  ooooooooooo   iiiiiii     ddddddddd:::::d   aaaaaaaaaaaaa   |\n  V:::::V         V:::::V oo:::::::::::oo i:::::i   dd::::::::::::::d   a::::::::::::a  |\n   V:::::V       V:::::V o:::::::::::::::o i::::i  d::::::::::::::::d   aaaaaaaaa:::::a |\n    V:::::V     V:::::V  o:::::ooooo:::::o i::::i d:::::::ddddd:::::d            a::::a |\n     V:::::V   V:::::V   o::::o     o::::o i::::i d::::::d    d:::::d     aaaaaaa:::::a |\n      V:::::V V:::::V    o::::o     o::::o i::::i d:::::d     d:::::d   aa::::::::::::a |\n       V:::::V:::::V     o::::o     o::::o i::::i d:::::d     d:::::d  a::::aaaa::::::a |\n        V:::::::::V      o::::o     o::::o i::::i d:::::d     d:::::d a::::a    a:::::a |\n         V:::::::V       o:::::ooooo:::::o i::::i d::::::ddddd::::::d a::::a    a:::::a |\n          V:::::V        o:::::::::::::::o i::::i  d::::::::::::::::d a:::::aaaa::::::a |\n           V:::V          oo:::::::::::oo i::::::i  d:::::::::ddd::::d a::::::::::aa:::a|\n            VVV             ooooooooooo   iiiiiiii   ddddddddd   ddddd  aaaaaaaaaa  aaaa|",
            );
        }
        Logo { name, width: 88, height: 17, x: 0, y: 0 }
    }

    /// The banner's characters.
    pub fn name(&self) -> (r: String)
        ensures
            r@ == self.name@,
    {
        self.name.clone()
    }

    /// Centre the banner on a frame of the given size; a frame smaller
    /// than the banner pins it to the top-left corner.
    pub fn frame_center(&mut self, frame_width: usize, frame_height: usize)
        ensures
            final(self).x == (if frame_width >= old(self).width {
                (frame_width - old(self).width) / 2
            } else {
                0
            }),
            final(self).y == (if frame_height >= old(self).height {
                (frame_height - old(self).height) / 2
            } else {
                0
            }),
            final(self).name@ == old(self).name@,
            final(self).width == old(self).width,
            final(self).height == old(self).height,
    {
        self.x = if frame_width >= self.width {
            (frame_width - self.width) / 2
        } else {
            0
        };
        self.y = if frame_height >= self.height {
            (frame_height - self.height) / 2
        } else {
            0
        };
    }

    /// Placement and size: `(x, y, width, height)`.
    pub fn get_params(&self) -> (r: (usize, usize, usize, usize))
        ensures
            r.0 == self.x,
            r.1 == self.y,
            r.2 == self.width,
            r.3 == self.height,
    {
        (self.x, self.y, self.width, self.height)
    }

    /// Whether a frame cell lies on the banner.
    pub fn inside(&self, x: usize, y: usize) -> (r: bool)
        requires
            self.x + self.width <= usize::MAX,
            self.y + self.height <= usize::MAX,
        ensures
            r == (self.x <= x < self.x + self.width && self.y <= y < self.y + self.height),
    {
        x >= self.x && x < self.x + self.width && y >= self.y && y < self.y + self.height
    }
}

} // verus!
