//! The light the fragment stage takes in from the light sources.

use vstd::prelude::*;

use crate::nodes::Name;
use crate::out::{joined, joined_or};
use crate::shader::{scheme_output, Scheme};
use crate::parts::{
    source_box_text, source_effect_text, source_loop_text, source_loops_text, texture_discard_text,
    VertexOutput,
};
use crate::sources::{SourceArray, SourceKind};

verus! {

/// Whether `part` stands somewhere in `text`.
pub open spec fn holds_text(text: Seq<char>, part: Seq<char>) -> bool {
    exists|i: int| 0 <= i && i + part.len() <= text.len() && #[trigger] text.subrange(i, i + part.len()) == part
}

/// A text holds what a part of it holds.
proof fn lemma_holds_text_within(a: Seq<char>, x: Seq<char>, b: Seq<char>, part: Seq<char>)
    requires
        holds_text(x, part),
    ensures
        holds_text(a + x + b, part),
{
    let i = choose|i: int| 0 <= i && i + part.len() <= x.len() && #[trigger] x.subrange(i, i + part.len()) == part;
    let j = a.len() + i;
    assert((a + x + b).subrange(j, j + part.len()) =~= x.subrange(i, i + part.len()));
}

/// How the loop of the `n`-th source array reaches a source: it reads the source
/// from that array, tests the world position against its bounding box and its
/// radius, and computes the falloff `e`.
pub open spec fn source_reach_text(n: nat) -> Seq<char> {
    "let src = "@ + Name::Num { str: "sources_array", n: n as u32 }.text() + "[i];\n        "@
        + source_box_text() + "let len = length(out.world - src.pos);\n            "@
        + "if len < src.rad {\n                "@ + "let e = 1. - (len / src.rad);\n                "@
}

/// The loop of one source array: a glowing source adds its color, scaled by the
/// square of the falloff, to the light of the sources; a gloomy one takes it away.
proof fn lemma_source_loop_light(n: nat, kind: SourceKind, ambient: bool)
    ensures
        kind == SourceKind::Glow ==> holds_text(
            source_loop_text(n, kind, ambient),
            source_reach_text(n) + "sources += e * e * src.col"@ + ";"@,
        ),
        kind == SourceKind::Gloom ==> holds_text(
            source_loop_text(n, kind, ambient),
            source_reach_text(n) + "sources -= e * e * src.col"@,
        ),
{
    reveal_strlit("sources += e * e * src.col");
    reveal_strlit("sources -= e * e * src.col");
    reveal_strlit("sources -= e * e * src.col * ambient.rgb");
    reveal_strlit(";");
    reveal_strlit(";\n            ");
    let head = "for (var i = 0u; i < "@ + Name::Num { str: "sources_len", n: n as u32 }.text()
        + ".n; i++) {\n        "@;
    let reach = source_reach_text(n);
    let eff = source_effect_text(kind, ambient);
    let tail = ";\n            "@ + "}\n        "@ + "}\n    "@ + "}\n    "@;
    assert(source_loop_text(n, kind, ambient) =~= head + reach + eff + tail);
    let t = source_loop_text(n, kind, ambient);
    let i = head.len() as int;
    if kind == SourceKind::Glow {
        let part = reach + "sources += e * e * src.col"@ + ";"@;
        assert(t.subrange(i, i + part.len()) =~= part);
    } else {
        let part = reach + "sources -= e * e * src.col"@;
        assert(t.subrange(i, i + part.len()) =~= part);
    }
}

/// The loops of the first `k` source arrays hold the loop of each of them.
proof fn lemma_source_loops_light(arrays: Seq<SourceArray>, k: nat, ambient: bool, j: nat)
    requires
        j < k <= arrays.len(),
    ensures
        arrays[j as int].kind_of() == SourceKind::Glow ==> holds_text(
            source_loops_text(arrays, k, ambient),
            source_reach_text(j) + "sources += e * e * src.col"@ + ";"@,
        ),
        arrays[j as int].kind_of() == SourceKind::Gloom ==> holds_text(
            source_loops_text(arrays, k, ambient),
            source_reach_text(j) + "sources -= e * e * src.col"@,
        ),
    decreases k,
{
    let prev = source_loops_text(arrays, (k - 1) as nat, ambient);
    let last = source_loop_text((k - 1) as nat, arrays[k - 1].kind_of(), ambient);
    let glow = source_reach_text(j) + "sources += e * e * src.col"@ + ";"@;
    let gloom = source_reach_text(j) + "sources -= e * e * src.col"@;
    if j == k - 1 {
        lemma_source_loop_light(j, arrays[j as int].kind_of(), ambient);
        if arrays[j as int].kind_of() == SourceKind::Glow {
            lemma_holds_text_within(prev, last, Seq::empty(), glow);
        } else {
            lemma_holds_text_within(prev, last, Seq::empty(), gloom);
        }
        assert(prev + last + Seq::<char>::empty() =~= prev + last);
    } else {
        lemma_source_loops_light(arrays, (k - 1) as nat, ambient, j);
        if arrays[j as int].kind_of() == SourceKind::Glow {
            lemma_holds_text_within(Seq::empty(), prev, last, glow);
        } else {
            lemma_holds_text_within(Seq::empty(), prev, last, gloom);
        }
        assert(Seq::<char>::empty() + prev + last =~= prev + last);
    }
}

/// The fragment stage takes in the light of every source of every source array,
/// each read from its own array: a glowing source adds its color, scaled by the
/// square of its falloff, and a gloomy source takes it away.
pub proof fn lemma_sources_light(v: VertexOutput, j: nat)
    requires
        j < v.source_arrays.arrays().len(),
    ensures
        v.source_arrays.arrays()[j as int].kind_of() == SourceKind::Glow ==> holds_text(
            v.fragment_text(),
            source_reach_text(j) + "sources += e * e * src.col"@ + ";"@,
        ),
        v.source_arrays.arrays()[j as int].kind_of() == SourceKind::Gloom ==> holds_text(
            v.fragment_text(),
            source_reach_text(j) + "sources -= e * e * src.col"@,
        ),
{
    let arrays = v.source_arrays.arrays();
    let glow = source_reach_text(j) + "sources += e * e * src.col"@ + ";"@;
    let gloom = source_reach_text(j) + "sources -= e * e * src.col"@;
    let part = if arrays[j as int].kind_of() == SourceKind::Glow { glow } else { gloom };
    lemma_source_loops_light(arrays, arrays.len(), v.ambient, j);
    let loops = source_loops_text(arrays, arrays.len(), v.ambient);
    let pre = "\n    "@ + "var sources = vec3(0.); \n    "@;
    lemma_holds_text_within(pre, loops, Seq::empty(), part);
    assert(pre + loops + Seq::<char>::empty() =~= v.sources_text());
    let rest = v.spaces_text() + "let light = "@ + joined(v.light_items(), " + "@) + ";\n    "@;
    lemma_holds_text_within(Seq::empty(), v.sources_text(), rest, part);
    assert(Seq::<char>::empty() + v.sources_text() + rest =~= v.light_text());
    let before = crate::parts::when(v.fragment.vertex_texture, texture_discard_text());
    let after = "col = "@ + joined_or(v.color_items(), " * "@, "vec3(0.)"@) + ";\n"@;
    lemma_holds_text_within(before, v.light_text(), after, part);
    assert(before + v.light_text() + after =~= v.fragment_text());
}

/// The fragment section of a generated shader takes in the light of each source
/// array of the scheme: a glowing source adds its color, a gloomy one takes it away.
pub proof fn lemma_generated_sources_light(s: Scheme, j: nat)
    requires
        j < s.source_arrays.arrays().len(),
    ensures
        s.source_arrays.arrays()[j as int].kind_of() == SourceKind::Glow ==> holds_text(
            scheme_output(s).fragment_text(),
            source_reach_text(j) + "sources += e * e * src.col"@ + ";"@,
        ),
        s.source_arrays.arrays()[j as int].kind_of() == SourceKind::Gloom ==> holds_text(
            scheme_output(s).fragment_text(),
            source_reach_text(j) + "sources -= e * e * src.col"@,
        ),
{
    lemma_sources_light(scheme_output(s), j);
}

} // verus!
