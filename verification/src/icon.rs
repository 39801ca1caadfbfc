//! Icon resolution: converting raw pixel buffers or theme-relative names
//! into displayable images.
//!
//! A tray item may carry raw bitmaps, a theme icon name, or both.  The
//! resolver prefers, in strict order: a usable raw bitmap, then a named
//! icon under the item's own theme directory (through the lookup cache),
//! then the standard desktop theme registry — a fallback that is
//! deliberately disabled.  The filesystem probe itself happens in the
//! surrounding application; this module plans the probe (an ordered list
//! of candidate paths) and owns the cache of past answers.

use vstd::prelude::*;

verus! {

/// Target icon size for the tray, in pixels.
pub const ICON_SIZE: u16 = 22;

/// One raw bitmap supplied by an application: packed 32-bit pixels in
/// [alpha, red, green, blue] byte order.
#[derive(Debug)]
pub struct Pixmap {
    pub width: i32,
    pub height: i32,
    pub pixels: Vec<u8>,
}

/// A resolved, renderable image: either converted pixel data in
/// [red, green, blue, alpha] byte order, or the path of an icon file.
#[derive(Debug)]
pub enum IconHandle {
    Rgba { width: u32, height: u32, pixels: Vec<u8> },
    FilePath(String),
}

/// Mathematical image of an icon handle: buffers and paths by contents.
pub ghost enum IconModel {
    Rgba { width: u32, height: u32, pixels: Seq<u8> },
    FilePath(Seq<char>),
}

impl IconHandle {
    pub open spec fn model(&self) -> IconModel {
        match self {
            IconHandle::Rgba { width, height, pixels } => IconModel::Rgba {
                width: *width,
                height: *height,
                pixels: pixels@,
            },
            IconHandle::FilePath(p) => IconModel::FilePath(p@),
        }
    }
}

/// The model of an optional icon handle.
pub open spec fn opt_icon_model(o: Option<IconHandle>) -> Option<IconModel> {
    match o {
        Some(h) => Some(h.model()),
        None => None,
    }
}

/// Two icon handles carry the same image.
pub open spec fn icon_eq(a: IconHandle, b: IconHandle) -> bool {
    a.model() == b.model()
}

fn clone_bytes(v: &Vec<u8>) -> (r: Vec<u8>)
    ensures
        r@ == v@,
{
    let mut out: Vec<u8> = Vec::new();
    let mut i: usize = 0;
    while i < v.len()
        invariant
            i <= v.len(),
            out@ == v@.subrange(0, i as int),
        decreases v.len() - i,
    {
        out.push(v[i]);
        proof {
            assert(out@ =~= v@.subrange(0, i + 1 as int));
        }
        i = i + 1;
    }
    proof {
        assert(v@.subrange(0, v@.len() as int) =~= v@);
    }
    out
}

impl Clone for IconHandle {
    /// Copy an icon handle, preserving its contents.
    fn clone(&self) -> (r: Self)
        ensures
            icon_eq(*self, r),
    {
        match self {
            IconHandle::Rgba { width, height, pixels } => IconHandle::Rgba {
                width: *width,
                height: *height,
                pixels: clone_bytes(pixels),
            },
            IconHandle::FilePath(p) => IconHandle::FilePath(p.clone()),
        }
    }
}

/// A bitmap is usable when its dimensions are positive, it carries pixel
/// data, and its expected buffer size is addressable on this machine.
pub open spec fn valid_pixmap(p: Pixmap) -> bool {
    &&& p.width > 0
    &&& p.height > 0
    &&& p.pixels@.len() > 0
    &&& p.width * p.height * 4 <= usize::MAX
}

/// How far a bitmap's width is from the target size.
pub open spec fn width_distance(p: Pixmap) -> int {
    if p.width >= ICON_SIZE as int {
        p.width - ICON_SIZE as int
    } else {
        ICON_SIZE as int - p.width
    }
}

/// `i` is the index the resolver picks: the first usable bitmap whose
/// width is closest to the target size.
pub open spec fn spec_selected(ps: Seq<Pixmap>, i: int) -> bool {
    &&& 0 <= i < ps.len()
    &&& valid_pixmap(ps[i])
    &&& forall|j: int|
        0 <= j < ps.len() && valid_pixmap(#[trigger] ps[j]) ==> width_distance(ps[i])
            <= width_distance(ps[j])
    &&& forall|j: int|
        0 <= j < i && valid_pixmap(#[trigger] ps[j]) ==> width_distance(ps[j]) > width_distance(
            ps[i],
        )
}

/// Pick the usable bitmap whose width is numerically closest to the
/// target size; ties go to the first in input order.
pub fn select_pixmap(pixmaps: &Vec<Pixmap>) -> (r: Option<usize>)
    ensures
        match r {
            Some(i) => spec_selected(pixmaps@, i as int),
            None => forall|j: int| 0 <= j < pixmaps@.len() ==> !valid_pixmap(#[trigger] pixmaps@[j]),
        },
{
    let mut best: Option<usize> = None;
    let mut best_dist: i32 = 0;
    let mut i: usize = 0;
    while i < pixmaps.len()
        invariant
            i <= pixmaps.len(),
            match best {
                Some(b) => {
                    &&& b < i
                    &&& valid_pixmap(pixmaps@[b as int])
                    &&& best_dist == width_distance(pixmaps@[b as int])
                    &&& forall|j: int|
                        0 <= j < i && valid_pixmap(#[trigger] pixmaps@[j]) ==> best_dist
                            <= width_distance(pixmaps@[j])
                    &&& forall|j: int|
                        0 <= j < b && valid_pixmap(#[trigger] pixmaps@[j]) ==> width_distance(
                            pixmaps@[j],
                        ) > best_dist
                },
                None => forall|j: int| 0 <= j < i ==> !valid_pixmap(#[trigger] pixmaps@[j]),
            },
        decreases pixmaps.len() - i,
    {
        let p = &pixmaps[i];
        let mut usable = p.width > 0 && p.height > 0 && p.pixels.len() > 0;
        if usable {
            let w64: u64 = p.width as u64;
            let h64: u64 = p.height as u64;
            proof {
                assert(w64 * h64 * 4 <= u64::MAX) by (nonlinear_arith)
                    requires
                        w64 <= 0x7fffffffu64,
                        h64 <= 0x7fffffffu64,
                ;
            }
            usable = w64 * h64 * 4 <= usize::MAX as u64;
        }
        if usable {
            let d = if p.width >= ICON_SIZE as i32 {
                p.width - ICON_SIZE as i32
            } else {
                ICON_SIZE as i32 - p.width
            };
            match best {
                None => {
                    best = Some(i);
                    best_dist = d;
                },
                Some(_) => {
                    if d < best_dist {
                        best = Some(i);
                        best_dist = d;
                    }
                },
            }
        }
        i = i + 1;
    }
    best
}

/// The byte at offset `i` of the [R, G, B, A] conversion of `argb`.
pub open spec fn rgba_byte(argb: Seq<u8>, i: int) -> u8 {
    if i % 4 == 3 {
        argb[4 * (i / 4)]
    } else {
        argb[4 * (i / 4) + (i % 4) + 1]
    }
}

/// The [R, G, B, A] buffer a `w` by `h` bitmap in [A, R, G, B] order maps
/// to: a byte-order swizzle of each pixel, or an all-transparent buffer of
/// the expected size when the source buffer is too short.
pub open spec fn spec_rgba(argb: Seq<u8>, w: nat, h: nat) -> Seq<u8> {
    if argb.len() < w * h * 4 {
        Seq::new(w * h * 4, |i: int| 0u8)
    } else {
        Seq::new(w * h * 4, |i: int| rgba_byte(argb, i))
    }
}

/// Convert a packed [A, R, G, B] buffer to [R, G, B, A] order.  A source
/// buffer shorter than `width * height * 4` bytes yields a fully
/// transparent buffer of the expected size rather than a failure.
pub fn argb32_to_rgba(argb: &[u8], width: usize, height: usize) -> (r: Vec<u8>)
    requires
        width * height * 4 <= usize::MAX,
    ensures
        r@ == spec_rgba(argb@, width as nat, height as nat),
{
    let expected_len: usize = width * height * 4;
    if argb.len() < expected_len {
        let r = vec![0u8; expected_len];
        proof {
            assert(r@ =~= spec_rgba(argb@, width as nat, height as nat));
        }
        return r;
    }
    let mut out: Vec<u8> = Vec::new();
    let pixel_count: usize = width * height;
    let mut p: usize = 0;
    while p < pixel_count
        invariant
            p <= pixel_count,
            pixel_count == width * height,
            pixel_count * 4 <= usize::MAX,
            argb@.len() >= pixel_count * 4,
            out@.len() == 4 * p,
            forall|i: int| 0 <= i < 4 * p ==> out@[i] == rgba_byte(argb@, i),
        decreases pixel_count - p,
    {
        let a = argb[4 * p];
        let red = argb[4 * p + 1];
        let g = argb[4 * p + 2];
        let b = argb[4 * p + 3];
        out.push(red);
        out.push(g);
        out.push(b);
        out.push(a);
        proof {
            assert forall|i: int| 0 <= i < 4 * (p + 1) implies out@[i] == rgba_byte(argb@, i) by {
                if i >= 4 * p {
                    assert(i / 4 == p as int);
                    assert(i % 4 == i - 4 * p);
                }
            }
        }
        p = p + 1;
    }
    proof {
        assert(out@ =~= spec_rgba(argb@, width as nat, height as nat));
    }
    out
}

/// The size-directory or layout infix of the `k`-th group of candidate
/// paths: the fixed candidate size subdirectories in probe order, then the
/// bare directory, then the standard `hicolor` layout for the same sizes.
pub open spec fn spec_icon_dir(k: int) -> Seq<char> {
    if k == 0 {
        "/22x22/"@
    } else if k == 1 {
        "/24x24/"@
    } else if k == 2 {
        "/32x32/"@
    } else if k == 3 {
        "/48x48/"@
    } else if k == 4 {
        "/22x22/"@
    } else if k == 5 {
        "/16x16/"@
    } else if k == 6 {
        "/"@
    } else if k == 7 {
        "/hicolor/22x22/apps/"@
    } else if k == 8 {
        "/hicolor/24x24/apps/"@
    } else if k == 9 {
        "/hicolor/32x32/apps/"@
    } else if k == 10 {
        "/hicolor/48x48/apps/"@
    } else if k == 11 {
        "/hicolor/22x22/apps/"@
    } else {
        "/hicolor/16x16/apps/"@
    }
}

/// The file extension tried at position `j` of each group.
pub open spec fn spec_icon_ext(j: int) -> Seq<char> {
    if j == 0 {
        "png"@
    } else if j == 1 {
        "svg"@
    } else {
        "xpm"@
    }
}

/// The three candidate paths of one probe group: the group's directory
/// infix combined with each extension in order.
pub open spec fn spec_group(theme: Seq<char>, name: Seq<char>, g: int) -> Seq<Seq<char>> {
    seq![
        theme + spec_icon_dir(g) + name + "."@ + spec_icon_ext(0),
        theme + spec_icon_dir(g) + name + "."@ + spec_icon_ext(1),
        theme + spec_icon_dir(g) + name + "."@ + spec_icon_ext(2),
    ]
}

/// The first `g` probe groups, concatenated in probe order.
pub open spec fn spec_groups_upto(theme: Seq<char>, name: Seq<char>, g: int) -> Seq<Seq<char>>
    decreases g,
{
    if g <= 0 {
        Seq::empty()
    } else {
        spec_groups_upto(theme, name, g - 1) + spec_group(theme, name, g - 1)
    }
}

/// Every candidate path probed for a (directory, name) pair, in probe
/// order.
pub open spec fn spec_candidates(theme: Seq<char>, name: Seq<char>) -> Seq<Seq<char>> {
    spec_groups_upto(theme, name, 13)
}

/// The contents of each string in a list.
pub open spec fn str_views(s: Seq<String>) -> Seq<Seq<char>> {
    Seq::new(s.len(), |k: int| s[k]@)
}

fn make_path(theme: &str, infix: &str, name: &str, ext: &str) -> (r: String)
    ensures
        r@ == theme@ + infix@ + name@ + "."@ + ext@,
{
    let mut s = String::new();
    s.append(theme);
    s.append(infix);
    s.append(name);
    s.append(".");
    s.append(ext);
    proof {
        assert(s@ =~= theme@ + infix@ + name@ + "."@ + ext@);
    }
    s
}

fn push_variants(out: &mut Vec<String>, theme: &str, infix: &str, name: &str)
    ensures
        final(out)@.len() == old(out)@.len() + 3,
        forall|k: int| 0 <= k < old(out)@.len() ==> final(out)@[k] == old(out)@[k],
        final(out)@[old(out)@.len() as int]@ == theme@ + infix@ + name@ + "."@ + spec_icon_ext(0),
        final(out)@[old(out)@.len() as int + 1]@ == theme@ + infix@ + name@ + "."@ + spec_icon_ext(1),
        final(out)@[old(out)@.len() as int + 2]@ == theme@ + infix@ + name@ + "."@ + spec_icon_ext(2),
{
    out.push(make_path(theme, infix, name, "png"));
    out.push(make_path(theme, infix, name, "svg"));
    out.push(make_path(theme, infix, name, "xpm"));
}

fn infix_for(m: usize) -> (r: &'static str)
    requires
        m < 13,
    ensures
        r@ == spec_icon_dir(m as int),
{
    match m {
        0 => "/22x22/",
        1 => "/24x24/",
        2 => "/32x32/",
        3 => "/48x48/",
        4 => "/22x22/",
        5 => "/16x16/",
        6 => "/",
        7 => "/hicolor/22x22/apps/",
        8 => "/hicolor/24x24/apps/",
        9 => "/hicolor/32x32/apps/",
        10 => "/hicolor/48x48/apps/",
        11 => "/hicolor/22x22/apps/",
        _ => "/hicolor/16x16/apps/",
    }
}

/// Every path probed for a (directory, name) pair, in probe order: each
/// extension under each size subdirectory, then directly under the
/// directory, then under the standard `hicolor` layout.  The first
/// existing path wins; the full probe is expensive, hence the cache.
pub fn icon_search_paths(theme_path: &str, icon_name: &str) -> (r: Vec<String>)
    ensures
        r@.len() == 39,
        str_views(r@) == spec_candidates(theme_path@, icon_name@),
{
    let mut out: Vec<String> = Vec::new();
    let mut m: usize = 0;
    while m < 13
        invariant
            m <= 13,
            out@.len() == 3 * m,
            str_views(out@) == spec_groups_upto(theme_path@, icon_name@, m as int),
        decreases 13 - m,
    {
        let ghost prior = out@;
        push_variants(&mut out, theme_path, infix_for(m), icon_name);
        proof {
            assert(str_views(out@) =~= str_views(prior) + spec_group(
                theme_path@,
                icon_name@,
                m as int,
            ));
        }
        m = m + 1;
    }
    out
}

/// Look a name up in the standard desktop icon theme registry.
///
/// Deliberately a no-op: the registry walk is disabled to bound memory and
/// filesystem traffic, so this fallback always reports "nothing found" and
/// rendering degrades to a placeholder glyph.  It is kept so the priority
/// ordering of the resolver stays visible.
pub fn lookup_freedesktop_icon(name: &str) -> (r: Option<String>)
    ensures
        r is None,
{
    let _ = name;
    None
}

// ---------------------------------------------------------------------------
// Lookup cache
// ---------------------------------------------------------------------------

/// One remembered probe answer, keyed by the exact (directory, name)
/// strings; a `None` result is remembered too, so a repeated miss never
/// re-touches the filesystem.
#[derive(Debug)]
pub struct CacheEntry {
    pub theme: String,
    pub name: String,
    pub result: Option<String>,
}

/// Mathematical image of a cache entry.
pub ghost struct CacheLine {
    pub theme: Seq<char>,
    pub name: Seq<char>,
    pub result: Option<Seq<char>>,
}

/// The contents of an optional string.
pub open spec fn opt_str_view(o: Option<String>) -> Option<Seq<char>> {
    match o {
        Some(s) => Some(s@),
        None => None,
    }
}

impl CacheEntry {
    pub open spec fn model(&self) -> CacheLine {
        CacheLine { theme: self.theme@, name: self.name@, result: opt_str_view(self.result) }
    }
}

/// Whether a cache line is keyed by the given (directory, name) pair.
pub open spec fn line_matches(l: CacheLine, theme: Seq<char>, name: Seq<char>) -> bool {
    l.theme == theme && l.name == name
}

/// Index of the first line keyed by (`theme`, `name`) at or after `i`.
pub open spec fn cache_find_from(s: Seq<CacheLine>, theme: Seq<char>, name: Seq<char>, i: int) -> Option<
    int,
>
    decreases s.len() - i,
    when 0 <= i <= s.len()
{
    if i >= s.len() {
        None
    } else if line_matches(s[i], theme, name) {
        Some(i)
    } else {
        cache_find_from(s, theme, name, i + 1)
    }
}

/// Index of the first line keyed by (`theme`, `name`), if any.
pub open spec fn cache_find(s: Seq<CacheLine>, theme: Seq<char>, name: Seq<char>) -> Option<int> {
    cache_find_from(s, theme, name, 0)
}

/// The remembered answer for a key: `None` when the key was never
/// recorded, `Some(answer)` otherwise — where the answer itself may be a
/// remembered miss.
pub open spec fn cache_lookup(s: Seq<CacheLine>, theme: Seq<char>, name: Seq<char>) -> Option<
    Option<Seq<char>>,
> {
    match cache_find(s, theme, name) {
        Some(i) => Some(s[i].result),
        None => None,
    }
}

/// The cache contents after recording an answer: the first line with the
/// same key is replaced, or a new line is appended.
pub open spec fn spec_record(
    s: Seq<CacheLine>,
    theme: Seq<char>,
    name: Seq<char>,
    v: Option<Seq<char>>,
) -> Seq<CacheLine> {
    let line = CacheLine { theme, name, result: v };
    match cache_find(s, theme, name) {
        Some(i) => s.update(i, line),
        None => s.push(line),
    }
}

proof fn lemma_cache_find_props(s: Seq<CacheLine>, theme: Seq<char>, name: Seq<char>, i: int)
    requires
        0 <= i <= s.len(),
    ensures
        match cache_find_from(s, theme, name, i) {
            Some(j) => i <= j < s.len() && line_matches(s[j], theme, name) && forall|k: int|
                i <= k < j ==> !line_matches(#[trigger] s[k], theme, name),
            None => forall|k: int| i <= k < s.len() ==> !line_matches(#[trigger] s[k], theme, name),
        },
    decreases s.len() - i,
{
    if i < s.len() && !line_matches(s[i], theme, name) {
        lemma_cache_find_props(s, theme, name, i + 1);
    }
}

proof fn lemma_cache_find_update(
    s: Seq<CacheLine>,
    x: CacheLine,
    u: int,
    theme: Seq<char>,
    name: Seq<char>,
    i: int,
)
    requires
        0 <= u < s.len(),
        x.theme == s[u].theme,
        x.name == s[u].name,
        0 <= i <= s.len(),
    ensures
        cache_find_from(s.update(u, x), theme, name, i) == cache_find_from(s, theme, name, i),
    decreases s.len() - i,
{
    if i < s.len() {
        lemma_cache_find_update(s, x, u, theme, name, i + 1);
    }
}

proof fn lemma_cache_find_push(
    s: Seq<CacheLine>,
    x: CacheLine,
    theme: Seq<char>,
    name: Seq<char>,
    i: int,
)
    requires
        0 <= i <= s.len(),
    ensures
        cache_find_from(s.push(x), theme, name, i) == match cache_find_from(s, theme, name, i) {
            Some(j) => Some(j),
            None => if line_matches(x, theme, name) {
                Some(s.len() as int)
            } else {
                None
            },
        },
    decreases s.len() - i,
{
    if i < s.len() {
        lemma_cache_find_push(s, x, theme, name, i + 1);
    } else {
        assert(cache_find_from(s.push(x), theme, name, i + 1) is None);
    }
}

/// Law: a recorded answer for one key is not disturbed by recording an
/// answer for any other key.  Together with the lookup contract this
/// makes the cache immune to filesystem changes during a run: once a key
/// is remembered, later lookups of it repeat the remembered answer.
pub proof fn lemma_cache_stability(
    s: Seq<CacheLine>,
    theme: Seq<char>,
    name: Seq<char>,
    theme2: Seq<char>,
    name2: Seq<char>,
    v2: Option<Seq<char>>,
)
    requires
        !(theme2 == theme && name2 == name),
    ensures
        cache_lookup(spec_record(s, theme2, name2, v2), theme, name) == cache_lookup(
            s,
            theme,
            name,
        ),
{
    let line = CacheLine { theme: theme2, name: name2, result: v2 };
    lemma_cache_find_props(s, theme2, name2, 0);
    lemma_cache_find_props(s, theme, name, 0);
    match cache_find(s, theme2, name2) {
        Some(u) => {
            lemma_cache_find_update(s, line, u, theme, name, 0);
            match cache_find(s, theme, name) {
                Some(j) => {
                    assert(j != u);
                },
                None => {},
            }
        },
        None => {
            lemma_cache_find_push(s, line, theme, name, 0);
        },
    }
}

/// Outcome of consulting the cache: a remembered answer, or the ordered
/// probe plan for a key seen for the first time.
#[derive(Debug)]
pub enum CacheOutcome {
    /// The key was seen before; the remembered answer (possibly a
    /// remembered miss) is repeated without touching the filesystem.
    Hit(Option<String>),
    /// The key is new: probe these paths in order and record the answer.
    Probe(Vec<String>),
}

/// Cache of icon path lookups, keyed by the exact (directory, name)
/// strings.  Entries never expire for the process lifetime.
#[derive(Debug)]
pub struct IconCache {
    entries: Vec<CacheEntry>,
}

impl IconCache {
    /// Mathematical contents of the cache, in insertion order.
    pub closed spec fn model(&self) -> Seq<CacheLine> {
        Seq::new(self.entries@.len(), |i: int| self.entries@[i].model())
    }

    /// An empty cache.
    pub fn new() -> (r: IconCache)
        ensures
            r.model() == Seq::<CacheLine>::empty(),
    {
        let r = IconCache { entries: Vec::new() };
        proof {
            assert(r.model() =~= Seq::<CacheLine>::empty());
        }
        r
    }

    fn find_entry(&self, theme_path: &String, icon_name: &String) -> (r: Option<usize>)
        ensures
            match r {
                Some(i) => i < self.entries@.len() && cache_find(
                    self.model(),
                    theme_path@,
                    icon_name@,
                ) == Some(i as int),
                None => cache_find(self.model(), theme_path@, icon_name@) is None,
            },
    {
        let mut i: usize = 0;
        let n = self.entries.len();
        while i < n
            invariant
                i <= n,
                n == self.entries.len(),
                forall|k: int|
                    0 <= k < i ==> !line_matches(#[trigger] self.model()[k], theme_path@, icon_name@),
            decreases n - i,
        {
            let e = &self.entries[i];
            proof {
                assert(self.model()[i as int] == self.entries@[i as int].model());
            }
            if e.theme == *theme_path && e.name == *icon_name {
                proof {
                    lemma_cache_find_props(self.model(), theme_path@, icon_name@, 0);
                    match cache_find(self.model(), theme_path@, icon_name@) {
                        Some(j) => {
                            if j < i {
                                assert(!line_matches(self.model()[j], theme_path@, icon_name@));
                            }
                            if j > i {
                                assert(!line_matches(self.model()[i as int], theme_path@, icon_name@));
                            }
                        },
                        None => {
                            assert(!line_matches(self.model()[i as int], theme_path@, icon_name@));
                        },
                    }
                }
                return Some(i);
            }
            i = i + 1;
        }
        proof {
            lemma_cache_find_props(self.model(), theme_path@, icon_name@, 0);
        }
        None
    }

    /// Consult the cache for a (directory, name) pair: repeat a remembered
    /// answer, or hand back the ordered probe plan for a new key.
    pub fn lookup_or_plan(&self, theme_path: &String, icon_name: &String) -> (r: CacheOutcome)
        ensures
            match cache_find(self.model(), theme_path@, icon_name@) {
                Some(i) => r matches CacheOutcome::Hit(v) && opt_str_view(v)
                    == self.model()[i].result,
                None => r matches CacheOutcome::Probe(paths) && paths@.len() == 39 && str_views(
                    paths@,
                ) == spec_candidates(theme_path@, icon_name@),
            },
    {
        match self.find_entry(theme_path, icon_name) {
            Some(i) => {
                let v = match &self.entries[i].result {
                    Some(p) => Some(p.clone()),
                    None => None,
                };
                CacheOutcome::Hit(v)
            },
            None => CacheOutcome::Probe(
                icon_search_paths(theme_path.as_str(), icon_name.as_str()),
            ),
        }
    }

    /// Record the probe answer for a key, replacing any earlier answer.
    pub fn record(&mut self, theme_path: &String, icon_name: &String, result: Option<String>)
        ensures
            final(self).model() == spec_record(
                old(self).model(),
                theme_path@,
                icon_name@,
                opt_str_view(result),
            ),
            cache_lookup(final(self).model(), theme_path@, icon_name@) == Some(
                opt_str_view(result),
            ),
            forall|t2: Seq<char>, n2: Seq<char>|
                !(t2 == theme_path@ && n2 == icon_name@) ==> cache_lookup(
                    final(self).model(),
                    t2,
                    n2,
                ) == cache_lookup(old(self).model(), t2, n2),
    {
        let entry = CacheEntry { theme: theme_path.clone(), name: icon_name.clone(), result };
        let ghost line = entry.model();
        let ghost s0 = self.model();
        match self.find_entry(theme_path, icon_name) {
            Some(i) => {
                self.entries[i] = entry;
                proof {
                    assert(self.model() =~= s0.update(i as int, line));
                    lemma_cache_find_props(s0, theme_path@, icon_name@, 0);
                    lemma_cache_find_update(s0, line, i as int, theme_path@, icon_name@, 0);
                    assert forall|t2: Seq<char>, n2: Seq<char>|
                        !(t2 == theme_path@ && n2 == icon_name@) implies cache_lookup(
                        self.model(),
                        t2,
                        n2,
                    ) == cache_lookup(s0, t2, n2) by {
                        lemma_cache_find_update(s0, line, i as int, t2, n2, 0);
                        lemma_cache_find_props(s0, t2, n2, 0);
                        match cache_find(s0, t2, n2) {
                            Some(j) => {
                                assert(j != i);
                            },
                            None => {},
                        }
                    }
                }
            },
            None => {
                self.entries.push(entry);
                proof {
                    assert(self.model() =~= s0.push(line));
                    lemma_cache_find_push(s0, line, theme_path@, icon_name@, 0);
                    assert forall|t2: Seq<char>, n2: Seq<char>|
                        !(t2 == theme_path@ && n2 == icon_name@) implies cache_lookup(
                        self.model(),
                        t2,
                        n2,
                    ) == cache_lookup(s0, t2, n2) by {
                        lemma_cache_find_push(s0, line, t2, n2, 0);
                        lemma_cache_find_props(s0, t2, n2, 0);
                    }
                }
            },
        }
    }
}

// ---------------------------------------------------------------------------
// Resolution priority
// ---------------------------------------------------------------------------

/// The icon-bearing fields of one protocol item, as plain values.
#[derive(Debug)]
pub struct IconSource {
    /// Raw bitmaps supplied by the application, if any.
    pub icon_pixmap: Option<Vec<Pixmap>>,
    /// Theme icon name, if any.
    pub icon_name: Option<String>,
    /// The item's own icon theme directory, if any.
    pub icon_theme_path: Option<String>,
}

/// What the resolver decided for one item.
#[derive(Debug)]
pub enum IconResolution {
    /// A usable raw bitmap was converted; nothing else is consulted.
    Image(IconHandle),
    /// No usable bitmap: the named icon must be probed for under the
    /// item's own theme directory, through the cache.
    LookupNamed { theme_path: String, name: String },
    /// Nothing usable was supplied; rendering falls back to a placeholder.
    NoIcon,
}

/// Whether an item supplies at least one usable raw bitmap.
pub open spec fn has_usable_pixmap(item: IconSource) -> bool {
    item.icon_pixmap matches Some(ps) && exists|i: int|
        0 <= i < ps@.len() && valid_pixmap(#[trigger] ps@[i])
}

/// Whether an item asks for a named lookup under its own theme directory:
/// no usable bitmap, a non-empty icon name, and a non-empty directory.
pub open spec fn wants_named_lookup(item: IconSource) -> bool {
    &&& !has_usable_pixmap(item)
    &&& item.icon_name matches Some(n) && n@.len() > 0
    &&& item.icon_theme_path matches Some(t) && t@.len() > 0
}

/// Decide how one item's icon is obtained, in strict priority order:
/// a raw bitmap, then a named icon under the item's own theme directory,
/// then nothing — the system theme registry fallback is disabled (see
/// [`lookup_freedesktop_icon`]).
pub fn resolve_icon(item: &IconSource) -> (r: IconResolution)
    ensures
        has_usable_pixmap(*item) ==> (r matches IconResolution::Image(h) && (
        item.icon_pixmap matches Some(ps) && exists|i: int|
            #[trigger] spec_selected(ps@, i) && (h matches IconHandle::Rgba {
                width,
                height,
                pixels,
            } && width == ps@[i].width as u32 && height == ps@[i].height as u32 && pixels@
                == spec_rgba(ps@[i].pixels@, ps@[i].width as nat, ps@[i].height as nat)))),
        wants_named_lookup(*item) ==> (r matches IconResolution::LookupNamed { theme_path, name }
            && (item.icon_theme_path matches Some(t) && theme_path@ == t@) && (
        item.icon_name matches Some(n) && name@ == n@)),
        !has_usable_pixmap(*item) && !wants_named_lookup(*item) ==> r
            matches IconResolution::NoIcon,
{
    if let Some(pixmaps) = &item.icon_pixmap {
        if let Some(h) = pixmap_to_handle(pixmaps) {
            return IconResolution::Image(h);
        }
    }
    if let Some(name) = &item.icon_name {
        if name.as_str().unicode_len() > 0 {
            if let Some(theme_path) = &item.icon_theme_path {
                if theme_path.as_str().unicode_len() > 0 {
                    return IconResolution::LookupNamed {
                        theme_path: theme_path.clone(),
                        name: name.clone(),
                    };
                }
            }
        }
    }
    IconResolution::NoIcon
}

/// Convert the best of a list of raw bitmaps into a renderable image, or
/// nothing when no bitmap is usable.
pub fn pixmap_to_handle(pixmaps: &Vec<Pixmap>) -> (r: Option<IconHandle>)
    ensures
        match r {
            Some(h) => exists|i: int|
                #[trigger] spec_selected(pixmaps@, i) && (h matches IconHandle::Rgba {
                    width,
                    height,
                    pixels,
                } && width == pixmaps@[i].width as u32 && height == pixmaps@[i].height as u32
                    && pixels@ == spec_rgba(
                    pixmaps@[i].pixels@,
                    pixmaps@[i].width as nat,
                    pixmaps@[i].height as nat,
                )),
            None => forall|j: int| 0 <= j < pixmaps@.len() ==> !valid_pixmap(#[trigger] pixmaps@[j]),
        },
{
    match select_pixmap(pixmaps) {
        None => None,
        Some(i) => {
            let p = &pixmaps[i];
            let w: usize = p.width as usize;
            let h: usize = p.height as usize;
            proof {
                assert(w * h * 4 == p.width * p.height * 4);
            }
            let rgba = argb32_to_rgba(p.pixels.as_slice(), w, h);
            Some(
                IconHandle::Rgba {
                    width: p.width as u32,
                    height: p.height as u32,
                    pixels: rgba,
                },
            )
        },
    }
}

} // verus!
