//! Token extraction for shader reflection: constant-buffer blocks
//! (`cbuffer <name> : register(b<N>) { <body> }`), the `<type> <identifier>;`
//! segments inside a block body, and resource declarations
//! (`Texture2D name : register(t<N>)` and their compute-shader variants).
//!
//! Every executable scanner returns exactly what its specification twin
//! denotes on the source's character sequence.

use vstd::prelude::*;
use vstd::string::StrSliceExecFns;
use crate::scan::{
    is_space, is_digit, skip_spaces, scan_buffer_name, scan_type_token, scan_resource_name,
    scan_digits, find_char, matches_at, lemma_skip_spaces_bounds, lemma_scan_buffer_name_bounds,
    lemma_scan_type_token_bounds, lemma_scan_resource_name_bounds, lemma_scan_digits_bounds,
    lemma_find_char_bounds, str_to_chars, is_space_x, skip_spaces_x, scan_buffer_name_x,
    scan_type_token_x, scan_resource_name_x, scan_digits_x, find_char_x, matches_at_x,
};
use crate::shader_types::ShaderResourceType;

verus! {

/// One `cbuffer` block: its name, the span of its register digits, and the
/// span of its body between the braces.
pub struct BlockTok {
    pub name: Seq<char>,
    pub reg_start: int,
    pub reg_end: int,
    pub body_start: int,
    pub body_end: int,
    pub next: int,
}

/// One `<type> <identifier>;` segment of a block body.
pub struct UniformTok {
    pub ty: Seq<char>,
    pub name: Seq<char>,
}

/// One resource declaration with the span of its register digits.
pub struct ResTok {
    pub kind: ShaderResourceType,
    pub name: Seq<char>,
    pub reg_start: int,
    pub reg_end: int,
    pub next: int,
}

/// Tries to read a full `cbuffer` block starting exactly at position `i`.
pub open spec fn try_block_at(s: Seq<char>, i: int) -> Option<BlockTok> {
    let kw = "cbuffer"@;
    if !matches_at(s, i, kw) {
        None
    } else {
        let len = s.len() as int;
        let p0 = i + kw.len();
        let p1 = skip_spaces(s, p0, len);
        let ne = scan_buffer_name(s, p1, len);
        if p1 == p0 || ne == p1 {
            None
        } else {
            let p2 = skip_spaces(s, ne, len);
            if p2 >= len || s[p2] != ':' {
                None
            } else {
                let p3 = skip_spaces(s, p2 + 1, len);
                if !matches_at(s, p3, "register(b"@) {
                    None
                } else {
                    let d0 = p3 + "register(b"@.len();
                    let d1 = scan_digits(s, d0, len);
                    if d1 == d0 || d1 >= len || s[d1] != ')' {
                        None
                    } else {
                        let p4 = skip_spaces(s, d1 + 1, len);
                        if p4 >= len || s[p4] != '{' {
                            None
                        } else {
                            let b1 = find_char(s, p4 + 1, len, '}');
                            if b1 >= len {
                                None
                            } else {
                                Some(
                                    BlockTok {
                                        name: s.subrange(p1, ne),
                                        reg_start: d0,
                                        reg_end: d1,
                                        body_start: p4 + 1,
                                        body_end: b1,
                                        next: b1 + 1,
                                    },
                                )
                            }
                        }
                    }
                }
            }
        }
    }
}

/// Structural facts about a successfully read block.
pub proof fn lemma_try_block_at_wf(s: Seq<char>, i: int)
    requires
        try_block_at(s, i) is Some,
    ensures
        ({
            let b = try_block_at(s, i)->Some_0;
            &&& i < b.next <= s.len()
            &&& 0 <= b.body_start <= b.body_end < s.len()
            &&& 0 <= b.reg_start < b.reg_end <= s.len()
            &&& forall|k: int| b.reg_start <= k < b.reg_end ==> is_digit(#[trigger] s[k])
            &&& b.name.len() > 0
        }),
{
    reveal_strlit("cbuffer");
    reveal_strlit("register(b");
    let kw = "cbuffer"@;
    let len = s.len() as int;
    let p0 = i + kw.len();
    lemma_skip_spaces_bounds(s, p0, len);
    let p1 = skip_spaces(s, p0, len);
    lemma_scan_buffer_name_bounds(s, p1, len);
    let ne = scan_buffer_name(s, p1, len);
    lemma_skip_spaces_bounds(s, ne, len);
    let p2 = skip_spaces(s, ne, len);
    lemma_skip_spaces_bounds(s, p2 + 1, len);
    let p3 = skip_spaces(s, p2 + 1, len);
    let d0 = p3 + "register(b"@.len();
    lemma_scan_digits_bounds(s, d0, len);
    lemma_scan_digits_chars(s, d0, len);
    let d1 = scan_digits(s, d0, len);
    lemma_skip_spaces_bounds(s, d1 + 1, len);
    let p4 = skip_spaces(s, d1 + 1, len);
    lemma_find_char_bounds(s, p4 + 1, len, '}');
}

/// The characters of a scanned digit run are digits.
pub proof fn lemma_scan_digits_chars(s: Seq<char>, i: int, end: int)
    requires
        0 <= i <= end,
    ensures
        forall|k: int| i <= k < scan_digits(s, i, end) ==> is_digit(#[trigger] s[k]),
    decreases end - i,
{
    if i < end && is_digit(s[i]) {
        lemma_scan_digits_chars(s, i + 1, end);
    }
}

/// All `cbuffer` blocks of the source, scanning from position `i`.
pub open spec fn scan_blocks(s: Seq<char>, i: int) -> Seq<BlockTok>
    decreases s.len() - i,
{
    if i < 0 || i >= s.len() {
        Seq::empty()
    } else {
        match try_block_at(s, i) {
            Some(b) => {
                let nxt = if i < b.next <= s.len() {
                    b.next
                } else {
                    i + 1
                };
                seq![b] + scan_blocks(s, nxt)
            },
            None => scan_blocks(s, i + 1),
        }
    }
}

/// Tries to read one `<type> <identifier>` match inside the segment
/// `[i, semi)`, scanning forward for the first position where one starts.
pub open spec fn try_segment_at(s: Seq<char>, i: int, semi: int) -> Option<UniformTok>
    decreases semi - i,
{
    if i < 0 || i >= semi || semi > s.len() {
        None
    } else if is_space(s[i]) || s[i] == '/' {
        try_segment_at(s, i + 1, semi)
    } else {
        let te = scan_type_token(s, i, semi);
        let we = skip_spaces(s, te, semi);
        if te < we < semi {
            Some(UniformTok { ty: s.subrange(i, te), name: s.subrange(we, semi) })
        } else {
            try_segment_at(s, i + 1, semi)
        }
    }
}

/// All uniform tokens of the `;`-delimited segments of `[i, end)`.
pub open spec fn scan_uniforms(s: Seq<char>, i: int, end: int) -> Seq<UniformTok>
    decreases end - i,
{
    if i < 0 || i >= end || end > s.len() {
        Seq::empty()
    } else {
        let semi = find_char(s, i, end, ';');
        if semi >= end {
            Seq::empty()
        } else {
            let nxt = if semi + 1 > i {
                semi + 1
            } else {
                i + 1
            };
            let rest = scan_uniforms(s, nxt, end);
            match try_segment_at(s, i, semi) {
                Some(u) => seq![u] + rest,
                None => rest,
            }
        }
    }
}

/// Skips `<...>` generic groups after a resource keyword.
pub open spec fn skip_generics(s: Seq<char>, i: int) -> int
    decreases s.len() - i,
{
    if i < 0 || i >= s.len() || s[i] != '<' {
        i
    } else {
        let q = find_char(s, i + 1, s.len() as int, '>');
        if q >= s.len() {
            i
        } else {
            let nxt = if q + 1 > i {
                q + 1
            } else {
                i + 1
            };
            skip_generics(s, nxt)
        }
    }
}

pub proof fn lemma_skip_generics_bounds(s: Seq<char>, i: int)
    requires
        0 <= i <= s.len(),
    ensures
        i <= skip_generics(s, i) <= s.len(),
    decreases s.len() - i,
{
    if i < s.len() && s[i] == '<' {
        let q = find_char(s, i + 1, s.len() as int, '>');
        lemma_find_char_bounds(s, i + 1, s.len() as int, '>');
        if q < s.len() {
            lemma_skip_generics_bounds(s, q + 1);
        }
    }
}

/// Tries to read a resource declaration with the given keyword at `i`.
pub open spec fn try_resource_kw(
    s: Seq<char>,
    i: int,
    kw: Seq<char>,
    kind: ShaderResourceType,
    generics: bool,
    allow_u: bool,
) -> Option<ResTok> {
    if !matches_at(s, i, kw) {
        None
    } else {
        let len = s.len() as int;
        let g = if generics {
            skip_generics(s, i + kw.len())
        } else {
            i + kw.len()
        };
        let p1 = skip_spaces(s, g, len);
        let ne = scan_resource_name(s, p1, len);
        if p1 == g || ne == p1 {
            None
        } else {
            let p2 = skip_spaces(s, ne, len);
            if p2 >= len || s[p2] != ':' {
                None
            } else {
                let p3 = skip_spaces(s, p2 + 1, len);
                if !matches_at(s, p3, "register("@) {
                    None
                } else {
                    let rl = p3 + "register("@.len();
                    if rl >= len || !(s[rl] == 's' || s[rl] == 't' || (allow_u && s[rl] == 'u')) {
                        None
                    } else {
                        let d0 = rl + 1;
                        let d1 = scan_digits(s, d0, len);
                        if d1 == d0 || d1 >= len || s[d1] != ')' {
                            None
                        } else {
                            Some(
                                ResTok {
                                    kind,
                                    name: s.subrange(p1, ne),
                                    reg_start: d0,
                                    reg_end: d1,
                                    next: d1 + 1,
                                },
                            )
                        }
                    }
                }
            }
        }
    }
}

/// Tries each resource keyword the grammar knows at position `i`: the
/// graphics grammar knows `Texture2D` and `TextureCube`; the compute grammar
/// also knows the read-write variants and `SamplerState`, allows `<...>`
/// generics, and accepts `u` registers.
pub open spec fn try_resource_at(s: Seq<char>, i: int, compute: bool) -> Option<ResTok> {
    if compute {
        match try_resource_kw(s, i, "RWTexture2D"@, ShaderResourceType::RWTexture2D, true, true) {
            Some(r) => Some(r),
            None => match try_resource_kw(
                s,
                i,
                "RWTexture2DArray"@,
                ShaderResourceType::RWTexture2DArray,
                true,
                true,
            ) {
                Some(r) => Some(r),
                None => match try_resource_kw(
                    s,
                    i,
                    "Texture2D"@,
                    ShaderResourceType::Texture2D,
                    true,
                    true,
                ) {
                    Some(r) => Some(r),
                    None => match try_resource_kw(
                        s,
                        i,
                        "TextureCube"@,
                        ShaderResourceType::TextureCube,
                        true,
                        true,
                    ) {
                        Some(r) => Some(r),
                        None => try_resource_kw(
                            s,
                            i,
                            "SamplerState"@,
                            ShaderResourceType::Sampler,
                            true,
                            true,
                        ),
                    },
                },
            },
        }
    } else {
        match try_resource_kw(s, i, "Texture2D"@, ShaderResourceType::Texture2D, false, false) {
            Some(r) => Some(r),
            None => try_resource_kw(
                s,
                i,
                "TextureCube"@,
                ShaderResourceType::TextureCube,
                false,
                false,
            ),
        }
    }
}

/// Structural facts about a successfully read resource declaration.
pub proof fn lemma_try_resource_kw_wf(
    s: Seq<char>,
    i: int,
    kw: Seq<char>,
    kind: ShaderResourceType,
    generics: bool,
    allow_u: bool,
)
    requires
        try_resource_kw(s, i, kw, kind, generics, allow_u) is Some,
        kw.len() > 0,
    ensures
        ({
            let r = try_resource_kw(s, i, kw, kind, generics, allow_u)->Some_0;
            &&& i < r.next <= s.len()
            &&& 0 <= r.reg_start < r.reg_end <= s.len()
            &&& forall|k: int| r.reg_start <= k < r.reg_end ==> is_digit(#[trigger] s[k])
            &&& r.name.len() > 0
        }),
{
    reveal_strlit("register(");
    let len = s.len() as int;
    let g = if generics {
        skip_generics(s, i + kw.len())
    } else {
        i + kw.len()
    };
    lemma_skip_generics_bounds(s, i + kw.len());
    lemma_skip_spaces_bounds(s, g, len);
    let p1 = skip_spaces(s, g, len);
    lemma_scan_resource_name_bounds(s, p1, len);
    let ne = scan_resource_name(s, p1, len);
    lemma_skip_spaces_bounds(s, ne, len);
    let p2 = skip_spaces(s, ne, len);
    lemma_skip_spaces_bounds(s, p2 + 1, len);
    let p3 = skip_spaces(s, p2 + 1, len);
    let rl = p3 + "register("@.len();
    lemma_scan_digits_bounds(s, rl + 1, len);
    lemma_scan_digits_chars(s, rl + 1, len);
}

pub proof fn lemma_try_resource_at_wf(s: Seq<char>, i: int, compute: bool)
    requires
        try_resource_at(s, i, compute) is Some,
    ensures
        ({
            let r = try_resource_at(s, i, compute)->Some_0;
            &&& i < r.next <= s.len()
            &&& 0 <= r.reg_start < r.reg_end <= s.len()
            &&& forall|k: int| r.reg_start <= k < r.reg_end ==> is_digit(#[trigger] s[k])
            &&& r.name.len() > 0
        }),
{
    reveal_strlit("RWTexture2D");
    reveal_strlit("RWTexture2DArray");
    reveal_strlit("Texture2D");
    reveal_strlit("TextureCube");
    reveal_strlit("SamplerState");
    if compute {
        if try_resource_kw(s, i, "RWTexture2D"@, ShaderResourceType::RWTexture2D, true, true)
            is Some {
            lemma_try_resource_kw_wf(
                s,
                i,
                "RWTexture2D"@,
                ShaderResourceType::RWTexture2D,
                true,
                true,
            );
        } else if try_resource_kw(
            s,
            i,
            "RWTexture2DArray"@,
            ShaderResourceType::RWTexture2DArray,
            true,
            true,
        ) is Some {
            lemma_try_resource_kw_wf(
                s,
                i,
                "RWTexture2DArray"@,
                ShaderResourceType::RWTexture2DArray,
                true,
                true,
            );
        } else if try_resource_kw(s, i, "Texture2D"@, ShaderResourceType::Texture2D, true, true)
            is Some {
            lemma_try_resource_kw_wf(s, i, "Texture2D"@, ShaderResourceType::Texture2D, true, true);
        } else if try_resource_kw(s, i, "TextureCube"@, ShaderResourceType::TextureCube, true, true)
            is Some {
            lemma_try_resource_kw_wf(
                s,
                i,
                "TextureCube"@,
                ShaderResourceType::TextureCube,
                true,
                true,
            );
        } else {
            lemma_try_resource_kw_wf(s, i, "SamplerState"@, ShaderResourceType::Sampler, true, true);
        }
    } else {
        if try_resource_kw(s, i, "Texture2D"@, ShaderResourceType::Texture2D, false, false)
            is Some {
            lemma_try_resource_kw_wf(
                s,
                i,
                "Texture2D"@,
                ShaderResourceType::Texture2D,
                false,
                false,
            );
        } else {
            lemma_try_resource_kw_wf(
                s,
                i,
                "TextureCube"@,
                ShaderResourceType::TextureCube,
                false,
                false,
            );
        }
    }
}

/// All resource declarations of the source, scanning from position `i`.
pub open spec fn scan_resources(s: Seq<char>, i: int, compute: bool) -> Seq<ResTok>
    decreases s.len() - i,
{
    if i < 0 || i >= s.len() {
        Seq::empty()
    } else {
        match try_resource_at(s, i, compute) {
            Some(r) => {
                let nxt = if i < r.next <= s.len() {
                    r.next
                } else {
                    i + 1
                };
                seq![r] + scan_resources(s, nxt, compute)
            },
            None => scan_resources(s, i + 1, compute),
        }
    }
}

/// Structural facts that hold of every block a scan returns.
pub open spec fn block_wf(s: Seq<char>, b: BlockTok) -> bool {
    &&& 0 <= b.body_start <= b.body_end < s.len()
    &&& 0 <= b.reg_start < b.reg_end <= s.len()
    &&& (forall|k: int| b.reg_start <= k < b.reg_end ==> is_digit(#[trigger] s[k]))
    &&& b.name.len() > 0
}

pub proof fn lemma_scan_blocks_wf(s: Seq<char>, i: int, k: int)
    requires
        0 <= k < scan_blocks(s, i).len(),
    ensures
        block_wf(s, scan_blocks(s, i)[k]),
    decreases s.len() - i,
{
    if 0 <= i < s.len() {
        match try_block_at(s, i) {
            Some(b) => {
                lemma_try_block_at_wf(s, i);
                let nxt = if i < b.next <= s.len() {
                    b.next
                } else {
                    i + 1
                };
                if k > 0 {
                    assert(scan_blocks(s, i)[k] == scan_blocks(s, nxt)[k - 1]);
                    lemma_scan_blocks_wf(s, nxt, k - 1);
                }
            },
            None => {
                lemma_scan_blocks_wf(s, i + 1, k);
            },
        }
    }
}

/// Structural facts that hold of every resource a scan returns.
pub open spec fn res_wf(s: Seq<char>, r: ResTok) -> bool {
    &&& 0 <= r.reg_start < r.reg_end <= s.len()
    &&& (forall|k: int| r.reg_start <= k < r.reg_end ==> is_digit(#[trigger] s[k]))
    &&& r.name.len() > 0
}

pub proof fn lemma_scan_resources_wf(s: Seq<char>, i: int, compute: bool, k: int)
    requires
        0 <= k < scan_resources(s, i, compute).len(),
    ensures
        res_wf(s, scan_resources(s, i, compute)[k]),
    decreases s.len() - i,
{
    if 0 <= i < s.len() {
        match try_resource_at(s, i, compute) {
            Some(r) => {
                lemma_try_resource_at_wf(s, i, compute);
                let nxt = if i < r.next <= s.len() {
                    r.next
                } else {
                    i + 1
                };
                if k > 0 {
                    assert(scan_resources(s, i, compute)[k] == scan_resources(s, nxt, compute)[k
                        - 1]);
                    lemma_scan_resources_wf(s, nxt, compute, k - 1);
                }
            },
            None => {
                lemma_scan_resources_wf(s, i + 1, compute, k);
            },
        }
    }
}

/// Executable block token; `deep_view` is its specification twin.
pub struct BlockE {
    pub name: String,
    pub reg_start: usize,
    pub reg_end: usize,
    pub body_start: usize,
    pub body_end: usize,
    pub next: usize,
}

impl DeepView for BlockE {
    type V = BlockTok;

    open spec fn deep_view(&self) -> BlockTok {
        BlockTok {
            name: self.name@,
            reg_start: self.reg_start as int,
            reg_end: self.reg_end as int,
            body_start: self.body_start as int,
            body_end: self.body_end as int,
            next: self.next as int,
        }
    }
}

/// Executable uniform token.
pub struct UniformTokE {
    pub ty: String,
    pub name: String,
}

impl DeepView for UniformTokE {
    type V = UniformTok;

    open spec fn deep_view(&self) -> UniformTok {
        UniformTok { ty: self.ty@, name: self.name@ }
    }
}

/// Executable resource token.
pub struct ResE {
    pub kind: ShaderResourceType,
    pub name: String,
    pub reg_start: usize,
    pub reg_end: usize,
    pub next: usize,
}

impl DeepView for ResE {
    type V = ResTok;

    open spec fn deep_view(&self) -> ResTok {
        ResTok {
            kind: self.kind,
            name: self.name@,
            reg_start: self.reg_start as int,
            reg_end: self.reg_end as int,
            next: self.next as int,
        }
    }
}

/// Reads the `cbuffer` block starting at `i`, if one starts exactly there.
fn try_block_at_x(chars: &Vec<char>, src: &str, i: usize) -> (r: Option<BlockE>)
    requires
        chars@ == src@,
        i <= chars@.len(),
    ensures
        match r {
            Some(be) => try_block_at(chars@, i as int) == Some(be.deep_view()),
            None => try_block_at(chars@, i as int) is None,
        },
{
    let len = chars.len();
    let kw = str_to_chars("cbuffer");
    if !matches_at_x(chars, i, &kw) {
        return None;
    }
    let p0 = i + kw.len();
    let p1 = skip_spaces_x(chars, p0, len);
    let ne = scan_buffer_name_x(chars, p1, len);
    if p1 == p0 || ne == p1 {
        return None;
    }
    let p2 = skip_spaces_x(chars, ne, len);
    if p2 >= len || chars[p2] != ':' {
        return None;
    }
    let p3 = skip_spaces_x(chars, p2 + 1, len);
    let reg_kw = str_to_chars("register(b");
    if !matches_at_x(chars, p3, &reg_kw) {
        return None;
    }
    let d0 = p3 + reg_kw.len();
    let d1 = scan_digits_x(chars, d0, len);
    if d1 == d0 || d1 >= len || chars[d1] != ')' {
        return None;
    }
    let p4 = skip_spaces_x(chars, d1 + 1, len);
    if p4 >= len || chars[p4] != '{' {
        return None;
    }
    let b1 = find_char_x(chars, p4 + 1, len, '}');
    if b1 >= len {
        return None;
    }
    let name = src.substring_char(p1, ne).to_owned();
    Some(BlockE { name, reg_start: d0, reg_end: d1, body_start: p4 + 1, body_end: b1, next: b1 + 1 })
}

/// All `cbuffer` blocks of the source, in order of occurrence.
pub fn scan_blocks_x(chars: &Vec<char>, src: &str) -> (r: Vec<BlockE>)
    requires
        chars@ == src@,
    ensures
        r.deep_view() == scan_blocks(chars@, 0),
{
    let len = chars.len();
    let mut out: Vec<BlockE> = Vec::new();
    let mut i: usize = 0;
    while i < len
        invariant
            chars@ == src@,
            len == chars@.len(),
            i <= len,
            scan_blocks(chars@, 0) == out.deep_view() + scan_blocks(chars@, i as int),
        decreases len - i,
    {
        match try_block_at_x(chars, src, i) {
            Some(be) => {
                proof {
                    lemma_try_block_at_wf(chars@, i as int);
                }
                let ghost prev = out.deep_view();
                let nxt = be.next;
                out.push(be);
                proof {
                    assert(out.deep_view() =~= prev.push(out@[out@.len() - 1].deep_view()));
                    assert(out.deep_view() + scan_blocks(chars@, nxt as int) =~= prev + (seq![
                        out@[out@.len() - 1].deep_view(),
                    ] + scan_blocks(chars@, nxt as int)));
                }
                i = nxt;
            },
            None => {
                i = i + 1;
            },
        }
    }
    proof {
        assert(scan_blocks(chars@, i as int) =~= Seq::<BlockTok>::empty());
        assert(out.deep_view() + Seq::<BlockTok>::empty() =~= out.deep_view());
    }
    out
}

/// Reads the first `<type> <identifier>` match of the segment `[i, semi)`.
fn try_segment_at_x(chars: &Vec<char>, src: &str, i: usize, semi: usize) -> (r: Option<
    UniformTokE,
>)
    requires
        chars@ == src@,
        i <= semi <= chars@.len(),
    ensures
        match r {
            Some(u) => try_segment_at(chars@, i as int, semi as int) == Some(u.deep_view()),
            None => try_segment_at(chars@, i as int, semi as int) is None,
        },
{
    let mut p = i;
    while p < semi
        invariant
            chars@ == src@,
            i <= p <= semi <= chars@.len(),
            try_segment_at(chars@, i as int, semi as int) == try_segment_at(
                chars@,
                p as int,
                semi as int,
            ),
        decreases semi - p,
    {
        if is_space_x(chars[p]) || chars[p] == '/' {
            p = p + 1;
        } else {
            let te = scan_type_token_x(chars, p, semi);
            let we = skip_spaces_x(chars, te, semi);
            if te < we && we < semi {
                let ty = src.substring_char(p, te).to_owned();
                let name = src.substring_char(we, semi).to_owned();
                return Some(UniformTokE { ty, name });
            }
            p = p + 1;
        }
    }
    None
}

/// All uniform tokens of the block body `[i, end)`.
pub fn scan_uniforms_x(chars: &Vec<char>, src: &str, i: usize, end: usize) -> (r: Vec<UniformTokE>)
    requires
        chars@ == src@,
        i <= end <= chars@.len(),
    ensures
        r.deep_view() == scan_uniforms(chars@, i as int, end as int),
{
    let mut out: Vec<UniformTokE> = Vec::new();
    let mut cur = i;
    while cur < end
        invariant
            chars@ == src@,
            i <= cur,
            cur <= end <= chars@.len(),
            scan_uniforms(chars@, i as int, end as int) == out.deep_view() + scan_uniforms(
                chars@,
                cur as int,
                end as int,
            ),
        decreases end - cur,
    {
        let semi = find_char_x(chars, cur, end, ';');
        if semi >= end {
            proof {
                assert(scan_uniforms(chars@, cur as int, end as int) =~= Seq::<
                    UniformTok,
                >::empty());
                assert(out.deep_view() + Seq::<UniformTok>::empty() =~= out.deep_view());
            }
            return out;
        }
        let ghost prev = out.deep_view();
        match try_segment_at_x(chars, src, cur, semi) {
            Some(u) => {
                out.push(u);
                proof {
                    assert(out.deep_view() =~= prev.push(out@[out@.len() - 1].deep_view()));
                    assert(out.deep_view() + scan_uniforms(chars@, semi as int + 1, end as int)
                        =~= prev + (seq![out@[out@.len() - 1].deep_view()] + scan_uniforms(
                        chars@,
                        semi as int + 1,
                        end as int,
                    )));
                }
            },
            None => {},
        }
        cur = semi + 1;
    }
    proof {
        assert(scan_uniforms(chars@, cur as int, end as int) =~= Seq::<UniformTok>::empty());
        assert(out.deep_view() + Seq::<UniformTok>::empty() =~= out.deep_view());
    }
    out
}

/// Reads a resource declaration with the given keyword at `i`.
fn try_resource_kw_x(
    chars: &Vec<char>,
    src: &str,
    i: usize,
    kw: &Vec<char>,
    kind: ShaderResourceType,
    generics: bool,
    allow_u: bool,
) -> (r: Option<ResE>)
    requires
        chars@ == src@,
        i <= chars@.len(),
    ensures
        match r {
            Some(re) => try_resource_kw(chars@, i as int, kw@, kind, generics, allow_u) == Some(
                re.deep_view(),
            ),
            None => try_resource_kw(chars@, i as int, kw@, kind, generics, allow_u) is None,
        },
{
    let len = chars.len();
    if !matches_at_x(chars, i, kw) {
        return None;
    }
    let g = if generics {
        skip_generics_x(chars, i + kw.len())
    } else {
        i + kw.len()
    };
    let p1 = skip_spaces_x(chars, g, len);
    let ne = scan_resource_name_x(chars, p1, len);
    if p1 == g || ne == p1 {
        return None;
    }
    let p2 = skip_spaces_x(chars, ne, len);
    if p2 >= len || chars[p2] != ':' {
        return None;
    }
    let p3 = skip_spaces_x(chars, p2 + 1, len);
    let reg_kw = str_to_chars("register(");
    if !matches_at_x(chars, p3, &reg_kw) {
        return None;
    }
    let rl = p3 + reg_kw.len();
    if rl >= len || !(chars[rl] == 's' || chars[rl] == 't' || (allow_u && chars[rl] == 'u')) {
        return None;
    }
    let d0 = rl + 1;
    let d1 = scan_digits_x(chars, d0, len);
    if d1 == d0 || d1 >= len || chars[d1] != ')' {
        return None;
    }
    let name = src.substring_char(p1, ne).to_owned();
    Some(ResE { kind, name, reg_start: d0, reg_end: d1, next: d1 + 1 })
}

/// Executable twin of `skip_generics`.
fn skip_generics_x(chars: &Vec<char>, i: usize) -> (r: usize)
    requires
        i <= chars@.len(),
    ensures
        r as int == skip_generics(chars@, i as int),
        i <= r <= chars@.len(),
{
    let len = chars.len();
    let mut p = i;
    while p < len && chars[p] == '<'
        invariant
            i <= p <= len,
            len == chars@.len(),
            skip_generics(chars@, i as int) == skip_generics(chars@, p as int),
        decreases len - p,
    {
        let q = find_char_x(chars, p + 1, len, '>');
        if q >= len {
            return p;
        }
        p = q + 1;
    }
    p
}

/// Tries each resource keyword of the selected grammar at position `i`.
fn try_resource_at_x(chars: &Vec<char>, src: &str, i: usize, compute: bool) -> (r: Option<ResE>)
    requires
        chars@ == src@,
        i <= chars@.len(),
    ensures
        match r {
            Some(re) => try_resource_at(chars@, i as int, compute) == Some(re.deep_view()),
            None => try_resource_at(chars@, i as int, compute) is None,
        },
{
    if compute {
        let kw1 = str_to_chars("RWTexture2D");
        if let Some(re) = try_resource_kw_x(
            chars,
            src,
            i,
            &kw1,
            ShaderResourceType::RWTexture2D,
            true,
            true,
        ) {
            return Some(re);
        }
        let kw2 = str_to_chars("RWTexture2DArray");
        if let Some(re) = try_resource_kw_x(
            chars,
            src,
            i,
            &kw2,
            ShaderResourceType::RWTexture2DArray,
            true,
            true,
        ) {
            return Some(re);
        }
        let kw3 = str_to_chars("Texture2D");
        if let Some(re) = try_resource_kw_x(
            chars,
            src,
            i,
            &kw3,
            ShaderResourceType::Texture2D,
            true,
            true,
        ) {
            return Some(re);
        }
        let kw4 = str_to_chars("TextureCube");
        if let Some(re) = try_resource_kw_x(
            chars,
            src,
            i,
            &kw4,
            ShaderResourceType::TextureCube,
            true,
            true,
        ) {
            return Some(re);
        }
        let kw5 = str_to_chars("SamplerState");
        try_resource_kw_x(chars, src, i, &kw5, ShaderResourceType::Sampler, true, true)
    } else {
        let kw1 = str_to_chars("Texture2D");
        if let Some(re) = try_resource_kw_x(
            chars,
            src,
            i,
            &kw1,
            ShaderResourceType::Texture2D,
            false,
            false,
        ) {
            return Some(re);
        }
        let kw2 = str_to_chars("TextureCube");
        try_resource_kw_x(chars, src, i, &kw2, ShaderResourceType::TextureCube, false, false)
    }
}

/// All resource declarations of the source, in order of occurrence.
pub fn scan_resources_x(chars: &Vec<char>, src: &str, compute: bool) -> (r: Vec<ResE>)
    requires
        chars@ == src@,
    ensures
        r.deep_view() == scan_resources(chars@, 0, compute),
{
    let len = chars.len();
    let mut out: Vec<ResE> = Vec::new();
    let mut i: usize = 0;
    while i < len
        invariant
            chars@ == src@,
            len == chars@.len(),
            i <= len,
            scan_resources(chars@, 0, compute) == out.deep_view() + scan_resources(
                chars@,
                i as int,
                compute,
            ),
        decreases len - i,
    {
        match try_resource_at_x(chars, src, i, compute) {
            Some(re) => {
                proof {
                    lemma_try_resource_at_wf(chars@, i as int, compute);
                }
                let ghost prev = out.deep_view();
                let nxt = re.next;
                out.push(re);
                proof {
                    assert(out.deep_view() =~= prev.push(out@[out@.len() - 1].deep_view()));
                    assert(out.deep_view() + scan_resources(chars@, nxt as int, compute) =~= prev
                        + (seq![out@[out@.len() - 1].deep_view()] + scan_resources(
                        chars@,
                        nxt as int,
                        compute,
                    )));
                }
                i = nxt;
            },
            None => {
                i = i + 1;
            },
        }
    }
    proof {
        assert(scan_resources(chars@, i as int, compute) =~= Seq::<ResTok>::empty());
        assert(out.deep_view() + Seq::<ResTok>::empty() =~= out.deep_view());
    }
    out
}

} // verus!
