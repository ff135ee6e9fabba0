//! The post-processing shader.

use vstd::prelude::*;

use crate::out::Out;

verus! {

/// The post-processing fragment stage.
pub struct Post {
    pub antialiasing: bool,
}

/// The fragment text of the post-processing stage.
pub open spec fn post_fragment_text(antialiasing: bool) -> Seq<char> {
    if antialiasing {
        "\
                let s0 = vec2(data.step.x, data.step.y);\n    \
                let s1 = vec2(-data.step.x, data.step.y);\n    \
                let s2 = vec2(data.step.x, -data.step.y);\n    \
                let s3 = vec2(-data.step.x, -data.step.y);\n    \
                col = (\n          \
                      textureSample(tmap, smap, in.map + s0)\n        \
                    + textureSample(tmap, smap, in.map + s1)\n        \
                    + textureSample(tmap, smap, in.map + s2)\n        \
                    + textureSample(tmap, smap, in.map + s3)\n    \
                ) * 0.25;\n    "@
    } else {
        "col = textureSample(tmap, smap, in.map);\n    "@
    }
}

impl Post {
    /// Writes the fragment color computation: the frame map, smoothed by
    /// four samples when antialiasing is on.
    pub fn calc_fragment(&self, o: &mut Out)
        ensures
            final(o)@ == old(o)@ + post_fragment_text(self.antialiasing),
    {
        if self.antialiasing {
            o.write_str(
                "\
                let s0 = vec2(data.step.x, data.step.y);\n    \
                let s1 = vec2(-data.step.x, data.step.y);\n    \
                let s2 = vec2(data.step.x, -data.step.y);\n    \
                let s3 = vec2(-data.step.x, -data.step.y);\n    \
                col = (\n          \
                      textureSample(tmap, smap, in.map + s0)\n        \
                    + textureSample(tmap, smap, in.map + s1)\n        \
                    + textureSample(tmap, smap, in.map + s2)\n        \
                    + textureSample(tmap, smap, in.map + s3)\n    \
                ) * 0.25;\n    ",
            );
        } else {
            o.write_str("col = textureSample(tmap, smap, in.map);\n    ");
        }
    }
}

} // verus!
