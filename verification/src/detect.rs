//! Installed-software detection over the display names the host reads out
//! of its uninstall registry.
//!
//! Each name is handled as a byte string. Matching is case-insensitive in
//! the ASCII range — the patterns looked for are plain ASCII, so folding
//! `A..Z` is all the lowercasing they need — and a pattern hits when it
//! occurs contiguously somewhere in the folded name. The rules that decide
//! whether each redistributable runtime is present combine several such
//! hits on one and the same name.

use vstd::prelude::*;

verus! {

/// ASCII case fold of one byte: `A..Z` becomes `a..z`, all else is kept.
pub open spec fn lower_byte(b: u8) -> u8 {
    if 65 <= b <= 90 {
        (b + 32) as u8
    } else {
        b
    }
}

/// Whether `pat` occurs at position `i` of `text`, comparing the folded
/// text against the pattern as given.
pub open spec fn matches_at(pat: Seq<u8>, text: Seq<u8>, i: int) -> bool {
    forall|k: int| 0 <= k < pat.len() ==> lower_byte(text[i + k]) == pat[k]
}

/// Whether `pat` occurs contiguously anywhere in the folded `text`.
pub open spec fn contains_lowered(pat: Seq<u8>, text: Seq<u8>) -> bool {
    exists|i: int| 0 <= i && i + pat.len() <= text.len() && matches_at(pat, text, i)
}

/// Whether some name in the list contains the pattern.
pub open spec fn any_contains(names: Seq<Seq<u8>>, pat: Seq<u8>) -> bool {
    exists|n: int| 0 <= n < names.len() && contains_lowered(pat, names[n])
}

/// ASCII case fold of one byte.
pub fn fold_byte(b: u8) -> (r: u8)
    ensures
        r == lower_byte(b),
{
    if 65 <= b && b <= 90 {
        b + 32
    } else {
        b
    }
}

/// Whether the folded `name` contains `pat` starting at position `i`.
fn matches_here(name: &Vec<u8>, pat: &Vec<u8>, i: usize) -> (r: bool)
    requires
        i + pat@.len() <= name@.len(),
    ensures
        r == matches_at(pat@, name@, i as int),
{
    let plen = pat.len();
    let nlen = name.len();
    let mut k: usize = 0;
    while k < plen
        invariant
            plen == pat@.len(),
            nlen == name@.len(),
            k <= plen,
            i + plen <= nlen,
            forall|m: int| 0 <= m < k ==> lower_byte(name@[i + m]) == pat@[m],
        decreases plen - k,
    {
        if fold_byte(name[i + k]) != pat[k] {
            return false;
        }
        k = k + 1;
    }
    true
}

/// Case-insensitive containment: whether the ASCII-folded `name` contains
/// `pat` as a contiguous run, the way the host checks a display name
/// against a lower-case pattern.
pub fn name_contains(name: &Vec<u8>, pat: &Vec<u8>) -> (r: bool)
    ensures
        r == contains_lowered(pat@, name@),
{
    if pat.len() > name.len() {
        return false;
    }
    if pat.len() == 0 {
        assert(matches_at(pat@, name@, 0));
        return true;
    }
    let nlen = name.len();
    let last = nlen - pat.len();
    let mut i: usize = 0;
    while i <= last
        invariant
            0 < pat@.len() <= name@.len(),
            nlen == name@.len(),
            last < nlen,
            last == name@.len() - pat@.len(),
            i <= last + 1,
            forall|x: int| 0 <= x < i ==> !matches_at(pat@, name@, x),
        decreases last - i + 1,
    {
        if matches_here(name, pat, i) {
            return true;
        }
        i = i + 1;
    }
    false
}

/// Whether any name in the list contains the pattern, folded.
pub fn list_contains(names: &Vec<Vec<u8>>, pat: &Vec<u8>) -> (r: bool)
    ensures
        r == any_contains(names.deep_view(), pat@),
{
    let mut n: usize = 0;
    while n < names.len()
        invariant
            n <= names@.len(),
            forall|m: int| 0 <= m < n ==> !contains_lowered(pat@, names.deep_view()[m]),
        decreases names@.len() - n,
    {
        if name_contains(&names[n], pat) {
            assert(names.deep_view()[n as int] == names@[n as int]@);
            return true;
        }
        assert(names.deep_view()[n as int] == names@[n as int]@);
        n = n + 1;
    }
    false
}

/// The pattern `visual c++`.
pub open spec fn pat_visual_cpp() -> Seq<u8> {
    seq![118, 105, 115, 117, 97, 108, 32, 99, 43, 43]
}

/// The pattern `vc++`.
pub open spec fn pat_vcpp() -> Seq<u8> {
    seq![118, 99, 43, 43]
}

/// The pattern `2013`.
pub open spec fn pat_2013() -> Seq<u8> {
    seq![50, 48, 49, 51]
}

/// The pattern `2015`.
pub open spec fn pat_2015() -> Seq<u8> {
    seq![50, 48, 49, 53]
}

/// The pattern `2017`.
pub open spec fn pat_2017() -> Seq<u8> {
    seq![50, 48, 49, 55]
}

/// The pattern `2019`.
pub open spec fn pat_2019() -> Seq<u8> {
    seq![50, 48, 49, 57]
}

/// The pattern `2022`.
pub open spec fn pat_2022() -> Seq<u8> {
    seq![50, 48, 50, 50]
}

/// The pattern `2015-2022`, as some combined redistributables are named.
pub open spec fn pat_2015_2022() -> Seq<u8> {
    seq![50, 48, 49, 53, 45, 50, 48, 50, 50]
}

/// The pattern `x64`.
pub open spec fn pat_x64() -> Seq<u8> {
    seq![120, 54, 52]
}

/// The pattern `64`.
pub open spec fn pat_64() -> Seq<u8> {
    seq![54, 52]
}

/// The pattern `64-bit`.
pub open spec fn pat_64_bit() -> Seq<u8> {
    seq![54, 52, 45, 98, 105, 116]
}

/// The pattern `x86`.
pub open spec fn pat_x86() -> Seq<u8> {
    seq![120, 56, 54]
}

/// The pattern `32`.
pub open spec fn pat_32() -> Seq<u8> {
    seq![51, 50]
}

/// Whether a display name is one of the C++ runtime redistributables.
pub open spec fn vc_runtime_name(n: Seq<u8>) -> bool {
    contains_lowered(pat_visual_cpp(), n) || contains_lowered(pat_vcpp(), n)
}

/// Whether a display name is the 2013 C++ runtime, 64-bit edition.
pub open spec fn vc2013_x64_name(n: Seq<u8>) -> bool {
    vc_runtime_name(n) && contains_lowered(pat_2013(), n) && (contains_lowered(pat_x64(), n)
        || contains_lowered(pat_64(), n))
}

/// Whether a display name is the 2013 C++ runtime, 32-bit edition: an
/// explicit `x86` mark, or a `32` mark on a name with no `64` in it.
pub open spec fn vc2013_x86_name(n: Seq<u8>) -> bool {
    vc_runtime_name(n) && contains_lowered(pat_2013(), n) && (contains_lowered(pat_x86(), n)
        || (contains_lowered(pat_32(), n) && !contains_lowered(pat_64(), n)))
}

/// Whether a display name carries one of the year marks of the unified
/// 2015-2022 C++ runtime line.
pub open spec fn vc2015_plus_year(n: Seq<u8>) -> bool {
    ||| contains_lowered(pat_2015(), n)
    ||| contains_lowered(pat_2017(), n)
    ||| contains_lowered(pat_2019(), n)
    ||| contains_lowered(pat_2022(), n)
    ||| contains_lowered(pat_2015_2022(), n)
}

/// Whether a display name is the unified C++ runtime, 64-bit edition.
pub open spec fn vc2015_plus_x64_name(n: Seq<u8>) -> bool {
    vc_runtime_name(n) && vc2015_plus_year(n) && (contains_lowered(pat_x64(), n)
        || contains_lowered(pat_64_bit(), n))
}

/// Whether a display name is the unified C++ runtime, 32-bit edition.
pub open spec fn vc2015_plus_x86_name(n: Seq<u8>) -> bool {
    vc_runtime_name(n) && vc2015_plus_year(n) && (contains_lowered(pat_x86(), n)
        || (contains_lowered(pat_32(), n) && !contains_lowered(pat_64(), n)))
}

/// Whether some name in the list satisfies the 2013 64-bit rule.
pub open spec fn vc2013_x64_listed(names: Seq<Seq<u8>>) -> bool {
    exists|i: int| 0 <= i < names.len() && vc2013_x64_name(names[i])
}

/// Whether some name in the list satisfies the 2013 32-bit rule.
pub open spec fn vc2013_x86_listed(names: Seq<Seq<u8>>) -> bool {
    exists|i: int| 0 <= i < names.len() && vc2013_x86_name(names[i])
}

/// Whether some name in the list satisfies the unified 64-bit rule.
pub open spec fn vc2015_plus_x64_listed(names: Seq<Seq<u8>>) -> bool {
    exists|i: int| 0 <= i < names.len() && vc2015_plus_x64_name(names[i])
}

/// Whether some name in the list satisfies the unified 32-bit rule.
pub open spec fn vc2015_plus_x86_listed(names: Seq<Seq<u8>>) -> bool {
    exists|i: int| 0 <= i < names.len() && vc2015_plus_x86_name(names[i])
}

/// The byte patterns the runtime rules look for, built once per pass.
struct RuntimePatterns {
    visual_cpp: Vec<u8>,
    vcpp: Vec<u8>,
    y2013: Vec<u8>,
    y2015: Vec<u8>,
    y2017: Vec<u8>,
    y2019: Vec<u8>,
    y2022: Vec<u8>,
    y2015_2022: Vec<u8>,
    x64: Vec<u8>,
    just64: Vec<u8>,
    bit64: Vec<u8>,
    x86: Vec<u8>,
    just32: Vec<u8>,
}

impl RuntimePatterns {
    spec fn wf(&self) -> bool {
        &&& self.visual_cpp@ == pat_visual_cpp()
        &&& self.vcpp@ == pat_vcpp()
        &&& self.y2013@ == pat_2013()
        &&& self.y2015@ == pat_2015()
        &&& self.y2017@ == pat_2017()
        &&& self.y2019@ == pat_2019()
        &&& self.y2022@ == pat_2022()
        &&& self.y2015_2022@ == pat_2015_2022()
        &&& self.x64@ == pat_x64()
        &&& self.just64@ == pat_64()
        &&& self.bit64@ == pat_64_bit()
        &&& self.x86@ == pat_x86()
        &&& self.just32@ == pat_32()
    }

    fn build() -> (p: RuntimePatterns)
        ensures
            p.wf(),
    {
        let visual_cpp: Vec<u8> = vec![118, 105, 115, 117, 97, 108, 32, 99, 43, 43];
        let vcpp: Vec<u8> = vec![118, 99, 43, 43];
        let y2013: Vec<u8> = vec![50, 48, 49, 51];
        let y2015: Vec<u8> = vec![50, 48, 49, 53];
        let y2017: Vec<u8> = vec![50, 48, 49, 55];
        let y2019: Vec<u8> = vec![50, 48, 49, 57];
        let y2022: Vec<u8> = vec![50, 48, 50, 50];
        let y2015_2022: Vec<u8> = vec![50, 48, 49, 53, 45, 50, 48, 50, 50];
        let x64: Vec<u8> = vec![120, 54, 52];
        let just64: Vec<u8> = vec![54, 52];
        let bit64: Vec<u8> = vec![54, 52, 45, 98, 105, 116];
        let x86: Vec<u8> = vec![120, 56, 54];
        let just32: Vec<u8> = vec![51, 50];
        assert(visual_cpp@ =~= pat_visual_cpp());
        assert(vcpp@ =~= pat_vcpp());
        assert(y2013@ =~= pat_2013());
        assert(y2015@ =~= pat_2015());
        assert(y2017@ =~= pat_2017());
        assert(y2019@ =~= pat_2019());
        assert(y2022@ =~= pat_2022());
        assert(y2015_2022@ =~= pat_2015_2022());
        assert(x64@ =~= pat_x64());
        assert(just64@ =~= pat_64());
        assert(bit64@ =~= pat_64_bit());
        assert(x86@ =~= pat_x86());
        assert(just32@ =~= pat_32());
        RuntimePatterns {
            visual_cpp,
            vcpp,
            y2013,
            y2015,
            y2017,
            y2019,
            y2022,
            y2015_2022,
            x64,
            just64,
            bit64,
            x86,
            just32,
        }
    }
}

/// The four runtime rules, decided for one display name.
fn name_runtime_hits(name: &Vec<u8>, p: &RuntimePatterns) -> (h: (bool, bool, bool, bool))
    requires
        p.wf(),
    ensures
        h.0 == vc2013_x64_name(name@),
        h.1 == vc2013_x86_name(name@),
        h.2 == vc2015_plus_x64_name(name@),
        h.3 == vc2015_plus_x86_name(name@),
{
    let vc = name_contains(name, &p.visual_cpp) || name_contains(name, &p.vcpp);
    if !vc {
        return (false, false, false, false);
    }
    let y13 = name_contains(name, &p.y2013);
    let y15p = name_contains(name, &p.y2015) || name_contains(name, &p.y2017)
        || name_contains(name, &p.y2019) || name_contains(name, &p.y2022)
        || name_contains(name, &p.y2015_2022);
    let has_x64 = name_contains(name, &p.x64);
    let has_64 = name_contains(name, &p.just64);
    let has_64bit = name_contains(name, &p.bit64);
    let has_x86 = name_contains(name, &p.x86);
    let has_32 = name_contains(name, &p.just32);
    (
        y13 && (has_x64 || has_64),
        y13 && (has_x86 || (has_32 && !has_64)),
        y15p && (has_x64 || has_64bit),
        y15p && (has_x86 || (has_32 && !has_64)),
    )
}

/// Decides, from the display names the host read out of its uninstall
/// registry, which of the five install items are already present: the four
/// C++ runtime editions by the rules above, and the graphics runtime by
/// the host's own file check, passed through unchanged. The result lines
/// up with the install pipeline's five items and is what a reload hands to
/// the detection pass.
pub fn detect_runtimes(names: &Vec<Vec<u8>>, graphics_present: bool) -> (flags: Vec<bool>)
    ensures
        flags@.len() == 5,
        flags@[0] == vc2013_x64_listed(names.deep_view()),
        flags@[1] == vc2013_x86_listed(names.deep_view()),
        flags@[2] == vc2015_plus_x64_listed(names.deep_view()),
        flags@[3] == vc2015_plus_x86_listed(names.deep_view()),
        flags@[4] == graphics_present,
{
    let p = RuntimePatterns::build();
    let mut f0 = false;
    let mut f1 = false;
    let mut f2 = false;
    let mut f3 = false;
    let ghost all = names.deep_view();
    let mut n: usize = 0;
    while n < names.len()
        invariant
            p.wf(),
            all == names.deep_view(),
            n <= names@.len(),
            f0 == (exists|i: int| 0 <= i < n && vc2013_x64_name(all[i])),
            f1 == (exists|i: int| 0 <= i < n && vc2013_x86_name(all[i])),
            f2 == (exists|i: int| 0 <= i < n && vc2015_plus_x64_name(all[i])),
            f3 == (exists|i: int| 0 <= i < n && vc2015_plus_x86_name(all[i])),
        decreases names@.len() - n,
    {
        let (h0, h1, h2, h3) = name_runtime_hits(&names[n], &p);
        proof {
            assert(all[n as int] == names@[n as int]@);
        }
        f0 = f0 || h0;
        f1 = f1 || h1;
        f2 = f2 || h2;
        f3 = f3 || h3;
        n = n + 1;
    }
    let mut flags: Vec<bool> = Vec::new();
    flags.push(f0);
    flags.push(f1);
    flags.push(f2);
    flags.push(f3);
    flags.push(graphics_present);
    flags
}

} // verus!
