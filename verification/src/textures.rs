//! Texture maps of a shader.

use vstd::prelude::*;

use crate::nodes::{Binding, Name, Type, Var};
use crate::out::{dec, Out};

verus! {

/// The bindings of the texture maps and their sampler.
#[derive(Clone)]
pub struct TextureBindings {
    pub tmaps: Vec<u32>,
    pub smap: u32,
}

impl TextureBindings {
    /// No bindings.
    pub fn empty() -> (r: Self)
        ensures
            r.tmaps@ == Seq::<u32>::empty(),
            r.smap == 0,
    {
        TextureBindings { tmaps: Vec::new(), smap: 0 }
    }
}

/// The variable of the `n`-th texture map.
pub open spec fn tmap_var(b: Binding, n: nat) -> Var {
    Var {
        binding: b,
        uniform: false,
        name: Name::Num { str: "tmap", n: n as u32 },
        ty: Type::Simple("texture_2d<f32>"),
    }
}

/// The sampler variable of the texture maps.
pub open spec fn smap_var(b: Binding) -> Var {
    Var { binding: b, uniform: false, name: Name::Str("smap"), ty: Type::Simple("sampler") }
}

/// The declarations of the first `k` texture maps from binding `start` on.
pub open spec fn tmaps_text(k: nat, group: u32, start: u32) -> Seq<char>
    decreases k,
{
    if k == 0 {
        Seq::empty()
    } else {
        tmaps_text((k - 1) as nat, group, start) + tmap_var(
            Binding { group, binding: (start + k - 1) as u32 },
            (k - 1) as nat,
        ).text()
    }
}

/// The declarations of `n` texture maps and their sampler at the binding `b`.
pub open spec fn textures_declare_text(n: nat, b: Binding) -> Seq<char> {
    if n == 0 {
        Seq::empty()
    } else {
        tmaps_text(n, b.group, b.binding) + smap_var(
            Binding { group: b.group, binding: (b.binding + n) as u32 },
        ).text()
    }
}

/// The sampling and mixing of the first `k` of several texture maps.
pub open spec fn mix_text(k: nat) -> Seq<char>
    decreases k,
{
    if k == 0 {
        Seq::empty()
    } else {
        let i = dec((k - 1) as nat);
        mix_text((k - 1) as nat) + "let tex_"@ + i + " = textureSample(tmap_"@ + i
            + ", smap, out.map);\n    "@ + "tex = mix(tex, tex_"@ + i + ", tex_"@ + i + ".a);\n    "@
    }
}

/// The fragment text that reads `n` texture maps into `tex` and discards
/// the fragments below the threshold.
pub open spec fn textures_fragment_text(n: nat, discard: Option<Seq<char>>) -> Seq<char> {
    if n == 0 {
        Seq::empty()
    } else {
        (if n == 1 {
            "let tex = textureSample(tmap_0, smap, out.map);\n    "@
        } else {
            "var tex = vec4(0.);\n    "@ + mix_text(n)
        }) + match discard {
            Some(v) => "if tex.a < "@ + v + " { discard; }\n    "@,
            None => Seq::empty(),
        }
    }
}

/// The number of texture maps in the shader, with an optional discard threshold.
///
/// The threshold is held as the WGSL text of the number.
#[derive(Clone)]
pub struct TexturesNumber {
    n: u8,
    discard: Option<String>,
}

impl TexturesNumber {
    /// The number of texture maps.
    pub closed spec fn count(&self) -> nat {
        self.n as nat
    }

    /// The threshold text, if any.
    pub closed spec fn discard_text(&self) -> Option<Seq<char>> {
        match self.discard {
            Some(s) => Some(s@),
            None => None,
        }
    }

    fn new(n: u8) -> (r: Self)
        ensures
            r.count() == n,
            r.discard_text() is None,
    {
        TexturesNumber { n, discard: None }
    }

    /// No texture maps.
    pub fn n0() -> (r: Self)
        ensures
            r.count() == 0,
            r.discard_text() is None,
    {
        Self::new(0)
    }

    /// One texture map.
    pub fn n1() -> (r: Self)
        ensures
            r.count() == 1,
            r.discard_text() is None,
    {
        Self::new(1)
    }

    /// Two texture maps.
    pub fn n2() -> (r: Self)
        ensures
            r.count() == 2,
            r.discard_text() is None,
    {
        Self::new(2)
    }

    /// Three texture maps.
    pub fn n3() -> (r: Self)
        ensures
            r.count() == 3,
            r.discard_text() is None,
    {
        Self::new(3)
    }

    /// Four texture maps.
    pub fn n4() -> (r: Self)
        ensures
            r.count() == 4,
            r.discard_text() is None,
    {
        Self::new(4)
    }

    /// Discards a pixel if its alpha value is less than the given number (its WGSL text).
    pub fn with_discard_threshold(self, value: String) -> (r: Self)
        ensures
            r.count() == self.count(),
            r.discard_text() == Some(value@),
    {
        TexturesNumber { n: self.n, discard: Some(value) }
    }

    /// The number of texture maps.
    pub fn len(&self) -> (n: usize)
        ensures
            n == self.count(),
            n <= 255,
    {
        self.n as usize
    }

    /// Whether there are no texture maps.
    pub fn is_empty(&self) -> (b: bool)
        ensures
            b == (self.count() == 0),
    {
        self.n == 0
    }

    /// Whether there are texture maps.
    pub fn has_textures(&self) -> (b: bool)
        ensures
            b == (self.count() != 0),
    {
        !self.is_empty()
    }

    /// Declares a variable per texture map and the sampler.
    pub fn declare_group(&self, binding: &mut Binding, o: &mut Out) -> (r: TextureBindings)
        requires
            self.count() > 0 ==> old(binding).binding + self.count() + 1 <= u32::MAX,
        ensures
            r.tmaps@.len() == self.count(),
            r.tmaps@.len() == 0 <==> self.count() == 0,
            self.count() == 0 ==> {
                &&& r.smap == 0
                &&& *final(binding) == *old(binding)
                &&& final(o)@ == old(o)@
            },
            self.count() > 0 ==> {
                &&& r.tmaps@ == Seq::new(self.count(), |i: int| (old(binding).binding + i) as u32)
                &&& r.smap == old(binding).binding + self.count()
                &&& *final(binding) == (Binding {
                    group: old(binding).group,
                    binding: (old(binding).binding + self.count() + 1) as u32,
                })
            },
            final(o)@ == old(o)@ + textures_declare_text(self.count(), *old(binding)),
    {
        if !self.has_textures() {
            return TextureBindings::empty();
        }
        let ghost b0 = *old(binding);
        let ghost start = old(o)@;
        let mut tmaps: Vec<u32> = Vec::new();
        let mut n: u32 = 0;
        while n < self.n as u32
            invariant
                b0.binding + self.count() + 1 <= u32::MAX,
                n <= self.count(),
                *binding == (Binding { group: b0.group, binding: (b0.binding + n) as u32 }),
                tmaps@ == Seq::new(n as nat, |i: int| (b0.binding + i) as u32),
                o@ == start + tmaps_text(n as nat, b0.group, b0.binding),
            decreases self.count() - n,
        {
            let b = binding.next();
            tmaps.push(b.get());
            let v = Var {
                binding: b,
                uniform: false,
                name: Name::Num { str: "tmap", n },
                ty: Type::texture2d(),
            };
            v.write_to(o);
            assert(tmaps@ =~= Seq::new((n + 1) as nat, |i: int| (b0.binding + i) as u32));
            n = n + 1;
        }
        let smap = binding.next();
        let v = Var { binding: smap, uniform: false, name: Name::Str("smap"), ty: Type::sampler() };
        v.write_to(o);
        TextureBindings { tmaps, smap: smap.get() }
    }

    /// Writes the sampling of the texture maps into `tex` and the discard test.
    pub fn calc_fragment(&self, o: &mut Out)
        ensures
            final(o)@ == old(o)@ + textures_fragment_text(self.count(), self.discard_text()),
    {
        if self.n == 0 {
            return ;
        } else if self.n == 1 {
            o.write_str("let tex = textureSample(tmap_0, smap, out.map);\n    ");
        } else {
            o.write_str("var tex = vec4(0.);\n    ");
            let ghost start = o@;
            let mut n: u32 = 0;
            while n < self.n as u32
                invariant
                    n <= self.count(),
                    o@ == start + mix_text(n as nat),
                decreases self.count() - n,
            {
                o.write_str("let tex_").write(n).write_str(" = textureSample(tmap_").write(
                    n,
                ).write_str(", smap, out.map);\n    ").write_str("tex = mix(tex, tex_").write(
                    n,
                ).write_str(", tex_").write(n).write_str(".a);\n    ");
                n = n + 1;
            }
        }
        match &self.discard {
            Some(value) => {
                o.write_str("if tex.a < ").write_str(value.as_str()).write_str(
                    " { discard; }\n    ",
                );
            },
            None => {},
        }
    }
}

} // verus!
