//! Reads the header of a `.cfg` scene description.
//!
//! The text is a sequence of lines. Blank lines are skipped; the others are
//! trimmed. A line holding a block header `[target]`, `[renderer]`,
//! `[camera]` or `[scene]` opens that block. Lines before the first header
//! are comments. Each line of the `target`, `renderer` and `camera` blocks
//! holds one `@key: value` pair; the lines of the `scene` block are joined
//! into the scene's JSON text. Values that are real numbers are kept as
//! their digits, to be read by whoever builds the scene and camera.
//! Block names and keys are words of ASCII letters, digits and `_`.
use vstd::prelude::*;
use crate::grammar::{find_head, find_pair, find_tuple, u32_of, header_word, key_value, number_tuple, parse_u32};
use crate::renderer::BackendConfig;
use crate::text::{CharClass, span_end, trim, skip, slice, trimmed, same_chars, chars_of, append};

verus! {

/// The block that the lines being read belong to.
#[derive(Debug, Clone, Copy, PartialEq, Eq, Structural)]
pub enum Block {
    /// Before the first header: comments.
    Preamble,
    Target,
    Renderer,
    Camera,
    Scene,
}

/// Channel layout of the output image.
#[derive(Debug, Clone, Copy, PartialEq, Eq, Structural)]
pub enum PixelFormat {
    Rgb8,
    Rgb16,
}

/// What is wrong with one line.
#[derive(Debug, Clone, Copy, PartialEq, Eq, Structural)]
pub enum LineError {
    /// A header names no known block.
    UnknownBlock,
    /// A line of a keyed block holds no `@key: value` pair.
    MalformedPair,
    /// The key is not one of its block's.
    UnknownKey,
    /// The value does not have the form that its key asks for.
    BadValue,
    /// A multi-threaded backend with zero threads.
    ZeroThreads,
}

/// Why a configuration text was refused.
#[derive(Debug, Clone, Copy, PartialEq, Eq, Structural)]
pub enum ConfigError {
    /// The line with this number (counting from one, blank lines included)
    /// is wrong.
    Line(usize, LineError),
    /// No line belongs to the `scene` block.
    EmptyScene,
}

/// What the header says, as mathematical values.
pub struct HeaderModel {
    pub comments: Seq<char>,
    pub target_name: Seq<char>,
    pub target_pixel: PixelFormat,
    pub target_resolution: Option<Seq<Seq<char>>>,
    pub renderer_backend: BackendConfig,
    pub renderer_bvh_acc: bool,
    pub renderer_max_depth: u32,
    pub renderer_spp: u32,
    pub camera_pos: Option<Seq<Seq<char>>>,
    pub camera_dir: Option<Seq<Seq<char>>>,
    pub camera_fov: Option<Seq<char>>,
    pub camera_viewport: Option<Seq<Seq<char>>>,
    pub scene: Seq<char>,
}

/// What the header says. A field left `None` was not given; whoever reads
/// it applies the default: resolution `(128, 128)`, position `(0, 0, 0)`,
/// direction `(0, 0, 1)`, field of view `45`, viewport `(0.5, 0.5)`.
pub struct CfgHeader {
    /// Lines before the first header, each followed by `\n`.
    pub comments: Vec<char>,
    pub target_name: Vec<char>,
    pub target_pixel: PixelFormat,
    /// Width and height, as digits.
    pub target_resolution: Option<Vec<Vec<char>>>,
    pub renderer_backend: BackendConfig,
    pub renderer_bvh_acc: bool,
    pub renderer_max_depth: u32,
    pub renderer_spp: u32,
    /// The three coordinates, as digits.
    pub camera_pos: Option<Vec<Vec<char>>>,
    /// The three coordinates, as digits.
    pub camera_dir: Option<Vec<Vec<char>>>,
    /// The value text of the field of view.
    pub camera_fov: Option<Vec<char>>,
    /// Width and height, as digits.
    pub camera_viewport: Option<Vec<Vec<char>>>,
    /// The lines of the `scene` block, joined.
    pub scene: Vec<char>,
}

pub open spec fn items_view(o: Option<Vec<Vec<char>>>) -> Option<Seq<Seq<char>>> {
    match o {
        Some(v) => Some(v@.map_values(|x: Vec<char>| x@)),
        None => None,
    }
}

pub open spec fn text_view(o: Option<Vec<char>>) -> Option<Seq<char>> {
    match o {
        Some(v) => Some(v@),
        None => None,
    }
}

impl View for CfgHeader {
    type V = HeaderModel;

    open spec fn view(&self) -> HeaderModel {
        HeaderModel {
            comments: self.comments@,
            target_name: self.target_name@,
            target_pixel: self.target_pixel,
            target_resolution: items_view(self.target_resolution),
            renderer_backend: self.renderer_backend,
            renderer_bvh_acc: self.renderer_bvh_acc,
            renderer_max_depth: self.renderer_max_depth,
            renderer_spp: self.renderer_spp,
            camera_pos: items_view(self.camera_pos),
            camera_dir: items_view(self.camera_dir),
            camera_fov: text_view(self.camera_fov),
            camera_viewport: items_view(self.camera_viewport),
            scene: self.scene@,
        }
    }
}

/// The header of a text with no `@key: value` pairs.
pub open spec fn default_model() -> HeaderModel {
    HeaderModel {
        comments: Seq::empty(),
        target_name: "out.png"@,
        target_pixel: PixelFormat::Rgb8,
        target_resolution: None,
        renderer_backend: BackendConfig::CPUDrivenS,
        renderer_bvh_acc: false,
        renderer_max_depth: 8,
        renderer_spp: 8,
        camera_pos: None,
        camera_dir: None,
        camera_fov: None,
        camera_viewport: None,
        scene: Seq::empty(),
    }
}

/// What `str::to_lowercase` makes of a string.
pub uninterp spec fn lower_of(s: Seq<char>) -> Seq<char>;

/// Relies on `str::to_lowercase`: its result depends on the characters of
/// `s` alone.
#[verifier::external_body]
fn lowercase(s: &str) -> (r: String)
    ensures
        r@ == lower_of(s@),
{
    s.to_lowercase()
}

/// Relies on `String: FromIterator<&char>`: the string holds the
/// characters in order.
#[verifier::external_body]
fn string_of(v: &Vec<char>) -> (r: String)
    ensures
        r@ == v@,
{
    v.iter().collect()
}

/// The block that a header word opens.
pub open spec fn block_named(w: Seq<char>) -> Option<Block> {
    if w == "target"@ {
        Some(Block::Target)
    } else if w == "renderer"@ {
        Some(Block::Renderer)
    } else if w == "camera"@ {
        Some(Block::Camera)
    } else if w == "scene"@ {
        Some(Block::Scene)
    } else {
        None
    }
}

/// The truth value of an already lower-cased word.
pub open spec fn bool_of(lowered: Seq<char>) -> Option<bool> {
    if lowered == "true"@ {
        Some(true)
    } else if lowered == "false"@ {
        Some(false)
    } else {
        None
    }
}

pub open spec fn pixel_of(v: Seq<char>) -> Option<PixelFormat> {
    if v == "RGB8"@ || v == "rgb8"@ {
        Some(PixelFormat::Rgb8)
    } else if v == "RGB16"@ || v == "rgb16"@ {
        Some(PixelFormat::Rgb16)
    } else {
        None
    }
}

/// The thread count of `cpu_mt(` ws* digits ws* `)`, as digits.
pub open spec fn mt_threads(v: Seq<char>) -> Option<Seq<char>> {
    let p = "cpu_mt("@;
    let a = span_end(v, p.len() as int, CharClass::Space);
    let b = span_end(v, a, CharClass::Digit);
    let c = span_end(v, b, CharClass::Space);
    if v.len() >= p.len() && v.subrange(0, p.len() as int) == p && b > a && c + 1 == v.len()
        && v[c] == ')' {
        Some(v.subrange(a, b))
    } else {
        None
    }
}

/// The backend that a `backend` value names: `cpu_st`, or `cpu_mt(n)` with
/// `n` a positive 32-bit count.
pub open spec fn backend_of(v: Seq<char>) -> Result<BackendConfig, LineError> {
    if v == "cpu_st"@ {
        Ok(BackendConfig::CPUDrivenS)
    } else {
        match mt_threads(v) {
            Some(d) => match u32_of(d) {
                Some(n) => if n == 0 {
                    Err(LineError::ZeroThreads)
                } else {
                    Ok(BackendConfig::CPUDrivenM(n))
                },
                None => Err(LineError::BadValue),
            },
            None => Err(LineError::BadValue),
        }
    }
}

/// The header after the pair `@key: value` of block `b`.
pub open spec fn apply_pair(h: HeaderModel, b: Block, key: Seq<char>, value: Seq<char>) -> Result<
    HeaderModel,
    LineError,
> {
    match b {
        Block::Target => if key == "name"@ {
            Ok(HeaderModel { target_name: value, ..h })
        } else if key == "pixel"@ {
            match pixel_of(value) {
                Some(p) => Ok(HeaderModel { target_pixel: p, ..h }),
                None => Err(LineError::BadValue),
            }
        } else if key == "resolution"@ {
            match find_tuple(value, 0, 2) {
                Some(t) => Ok(HeaderModel { target_resolution: Some(t), ..h }),
                None => Err(LineError::BadValue),
            }
        } else {
            Err(LineError::UnknownKey)
        },
        Block::Renderer => if key == "backend"@ {
            match backend_of(value) {
                Ok(k) => Ok(HeaderModel { renderer_backend: k, ..h }),
                Err(e) => Err(e),
            }
        } else if key == "bvh_acc"@ {
            match bool_of(lower_of(value)) {
                Some(x) => Ok(HeaderModel { renderer_bvh_acc: x, ..h }),
                None => Err(LineError::BadValue),
            }
        } else if key == "max_depth"@ {
            match u32_of(value) {
                Some(n) => Ok(HeaderModel { renderer_max_depth: n, ..h }),
                None => Err(LineError::BadValue),
            }
        } else if key == "spp"@ {
            match u32_of(value) {
                Some(n) => Ok(HeaderModel { renderer_spp: n, ..h }),
                None => Err(LineError::BadValue),
            }
        } else {
            Err(LineError::UnknownKey)
        },
        Block::Camera => if key == "pos"@ {
            match find_tuple(value, 0, 3) {
                Some(t) => Ok(HeaderModel { camera_pos: Some(t), ..h }),
                None => Err(LineError::BadValue),
            }
        } else if key == "dir"@ {
            match find_tuple(value, 0, 3) {
                Some(t) => Ok(HeaderModel { camera_dir: Some(t), ..h }),
                None => Err(LineError::BadValue),
            }
        } else if key == "fov"@ {
            Ok(HeaderModel { camera_fov: Some(value), ..h })
        } else if key == "viewport"@ {
            match find_tuple(value, 0, 2) {
                Some(t) => Ok(HeaderModel { camera_viewport: Some(t), ..h }),
                None => Err(LineError::BadValue),
            }
        } else {
            Err(LineError::UnknownKey)
        },
        _ => Err(LineError::UnknownKey),
    }
}

/// Header and block after the trimmed, non-blank line `line`; `no` is its
/// line number.
pub open spec fn step(h: HeaderModel, b: Block, line: Seq<char>, no: nat) -> Result<
    (HeaderModel, Block),
    ConfigError,
> {
    match find_head(line, 0) {
        Some(w) => match block_named(w) {
            Some(nb) => Ok((h, nb)),
            None => Err(ConfigError::Line(no as usize, LineError::UnknownBlock)),
        },
        None => match b {
            Block::Scene => Ok((HeaderModel { scene: h.scene + line, ..h }, b)),
            Block::Preamble => Ok((HeaderModel { comments: h.comments + line + seq!['\n'], ..h }, b)),
            _ => match find_pair(line, 0) {
                Some((key, value)) => match apply_pair(h, b, key, value) {
                    Ok(h2) => Ok((h2, b)),
                    Err(e) => Err(ConfigError::Line(no as usize, e)),
                },
                None => Err(ConfigError::Line(no as usize, LineError::MalformedPair)),
            },
        },
    }
}

/// Where a reading of the text stands.
pub struct ScanModel {
    pub header: HeaderModel,
    pub block: Block,
    /// The characters of the line being read, so far.
    pub line: Seq<char>,
    /// How many line ends have been passed.
    pub newlines: nat,
}

/// Header and block once the line in `st` ends: a blank line changes
/// nothing.
pub open spec fn end_line(st: ScanModel) -> Result<(HeaderModel, Block), ConfigError> {
    let l = trim(st.line);
    if l.len() == 0 {
        Ok((st.header, st.block))
    } else {
        step(st.header, st.block, l, st.newlines + 1)
    }
}

/// The reading after the first `n` characters of `t`.
pub open spec fn scan(t: Seq<char>, n: nat) -> Result<ScanModel, ConfigError>
    decreases n,
{
    if n == 0 {
        Ok(ScanModel { header: default_model(), block: Block::Preamble, line: Seq::empty(), newlines: 0 })
    } else {
        match scan(t, (n - 1) as nat) {
            Err(e) => Err(e),
            Ok(st) => if t[n - 1] == '\n' {
                match end_line(st) {
                    Ok((h, b)) => Ok(ScanModel { header: h, block: b, line: Seq::empty(), newlines: st.newlines + 1 }),
                    Err(e) => Err(e),
                }
            } else {
                Ok(ScanModel { line: st.line.push(t[n - 1]), ..st })
            },
        }
    }
}

/// The header of the whole text `t`, or the first error in it.
pub open spec fn header_of(t: Seq<char>) -> Result<HeaderModel, ConfigError> {
    match scan(t, t.len()) {
        Err(e) => Err(e),
        Ok(st) => match end_line(st) {
            Err(e) => Err(e),
            Ok((h, _)) => if h.scene.len() == 0 {
                Err(ConfigError::EmptyScene)
            } else {
                Ok(h)
            },
        },
    }
}

/// Whether `v` holds exactly the characters of `lit`.
fn is_lit(v: &Vec<char>, lit: &str) -> (r: bool)
    ensures
        r == (v@ == lit@),
{
    same_chars(v, &chars_of(lit))
}

/// The truth value of an already lower-cased word: `true` or `false`.
pub fn bool_word(lowered: &Vec<char>) -> (r: Option<bool>)
    ensures
        r == bool_of(lowered@),
{
    if is_lit(lowered, "true") {
        Some(true)
    } else if is_lit(lowered, "false") {
        Some(false)
    } else {
        None
    }
}

/// Reads a truth value, in any case: `true`, `False`, `TRUE`, ...
pub fn bmx_bool(value: &str) -> (r: Result<bool, &'static str>)
    ensures
        match bool_of(lower_of(value@)) {
            Some(b) => r == Ok::<bool, &'static str>(b),
            None => r is Err,
        },
{
    let lowered = lowercase(value);
    match bool_word(&chars_of(lowered.as_str())) {
        Some(b) => Ok(b),
        None => Err("value is not boolean, which must be \"true\" or \"false\"!"),
    }
}

/// Reads an unsigned 32-bit integer: an optional `+`, then decimal digits.
pub fn bmx_u32(value: &str) -> (r: Result<u32, &'static str>)
    ensures
        match u32_of(value@) {
            Some(n) => r == Ok::<u32, &'static str>(n),
            None => r is Err,
        },
{
    match parse_u32(&chars_of(value)) {
        Some(n) => Ok(n),
        None => Err("value is not a interger!"),
    }
}

/// The block that a header word opens, if any.
pub fn block_of(w: &Vec<char>) -> (r: Option<Block>)
    ensures
        r == block_named(w@),
{
    if is_lit(w, "target") {
        Some(Block::Target)
    } else if is_lit(w, "renderer") {
        Some(Block::Renderer)
    } else if is_lit(w, "camera") {
        Some(Block::Camera)
    } else if is_lit(w, "scene") {
        Some(Block::Scene)
    } else {
        None
    }
}

/// The pixel format that a `pixel` value names.
pub fn pixel_format(v: &Vec<char>) -> (r: Option<PixelFormat>)
    ensures
        r == pixel_of(v@),
{
    if is_lit(v, "RGB8") || is_lit(v, "rgb8") {
        Some(PixelFormat::Rgb8)
    } else if is_lit(v, "RGB16") || is_lit(v, "rgb16") {
        Some(PixelFormat::Rgb16)
    } else {
        None
    }
}

fn mt_threads_exec(v: &Vec<char>) -> (r: Option<Vec<char>>)
    ensures
        match mt_threads(v@) {
            Some(d) => r matches Some(x) && x@ == d,
            None => r is None,
        },
{
    let p = chars_of("cpu_mt(");
    if v.len() < p.len() {
        return None;
    }
    let head = slice(v, 0, p.len());
    if !same_chars(&head, &p) {
        return None;
    }
    let a = skip(v, p.len(), CharClass::Space);
    let b = skip(v, a, CharClass::Digit);
    let c = skip(v, b, CharClass::Space);
    if b > a && c < v.len() && c + 1 == v.len() && v[c] == ')' {
        Some(slice(v, a, b))
    } else {
        None
    }
}

/// The backend that a `backend` value names.
pub fn backend_kind(v: &Vec<char>) -> (r: Result<BackendConfig, LineError>)
    ensures
        r == backend_of(v@),
{
    if is_lit(v, "cpu_st") {
        return Ok(BackendConfig::CPUDrivenS);
    }
    match mt_threads_exec(v) {
        Some(d) => match parse_u32(&d) {
            Some(n) => if n == 0 {
                Err(LineError::ZeroThreads)
            } else {
                Ok(BackendConfig::CPUDrivenM(n))
            },
            None => Err(LineError::BadValue),
        },
        None => Err(LineError::BadValue),
    }
}

/// The header after the pair `@key: value` of block `b`.
pub fn read_pair(h: CfgHeader, b: Block, key: &Vec<char>, value: Vec<char>) -> (r: Result<
    CfgHeader,
    LineError,
>)
    ensures
        match apply_pair(h@, b, key@, value@) {
            Ok(m) => r matches Ok(h2) && h2@ == m,
            Err(e) => r == Err::<CfgHeader, LineError>(e),
        },
{
    match b {
        Block::Target => if is_lit(key, "name") {
            Ok(CfgHeader { target_name: value, ..h })
        } else if is_lit(key, "pixel") {
            match pixel_format(&value) {
                Some(p) => Ok(CfgHeader { target_pixel: p, ..h }),
                None => Err(LineError::BadValue),
            }
        } else if is_lit(key, "resolution") {
            match number_tuple(&value, 2) {
                Some(t) => Ok(CfgHeader { target_resolution: Some(t), ..h }),
                None => Err(LineError::BadValue),
            }
        } else {
            Err(LineError::UnknownKey)
        },
        Block::Renderer => if is_lit(key, "backend") {
            match backend_kind(&value) {
                Ok(k) => Ok(CfgHeader { renderer_backend: k, ..h }),
                Err(e) => Err(e),
            }
        } else if is_lit(key, "bvh_acc") {
            match bmx_bool(string_of(&value).as_str()) {
                Ok(x) => Ok(CfgHeader { renderer_bvh_acc: x, ..h }),
                Err(_) => Err(LineError::BadValue),
            }
        } else if is_lit(key, "max_depth") {
            match parse_u32(&value) {
                Some(n) => Ok(CfgHeader { renderer_max_depth: n, ..h }),
                None => Err(LineError::BadValue),
            }
        } else if is_lit(key, "spp") {
            match parse_u32(&value) {
                Some(n) => Ok(CfgHeader { renderer_spp: n, ..h }),
                None => Err(LineError::BadValue),
            }
        } else {
            Err(LineError::UnknownKey)
        },
        Block::Camera => if is_lit(key, "pos") {
            match number_tuple(&value, 3) {
                Some(t) => Ok(CfgHeader { camera_pos: Some(t), ..h }),
                None => Err(LineError::BadValue),
            }
        } else if is_lit(key, "dir") {
            match number_tuple(&value, 3) {
                Some(t) => Ok(CfgHeader { camera_dir: Some(t), ..h }),
                None => Err(LineError::BadValue),
            }
        } else if is_lit(key, "fov") {
            Ok(CfgHeader { camera_fov: Some(value), ..h })
        } else if is_lit(key, "viewport") {
            match number_tuple(&value, 2) {
                Some(t) => Ok(CfgHeader { camera_viewport: Some(t), ..h }),
                None => Err(LineError::BadValue),
            }
        } else {
            Err(LineError::UnknownKey)
        },
        _ => Err(LineError::UnknownKey),
    }
}

/// Header and block after the trimmed, non-blank line `line`, whose line
/// number is `no`.
pub fn read_line(h: CfgHeader, b: Block, line: &Vec<char>, no: usize) -> (r: Result<
    (CfgHeader, Block),
    ConfigError,
>)
    ensures
        match step(h@, b, line@, no as nat) {
            Ok((m, nb)) => r matches Ok((h2, b2)) && h2@ == m && b2 == nb,
            Err(e) => r == Err::<(CfgHeader, Block), ConfigError>(e),
        },
{
    let ghost h0 = h@;
    match header_word(line) {
        Some(w) => match block_of(&w) {
            Some(nb) => Ok((h, nb)),
            None => Err(ConfigError::Line(no, LineError::UnknownBlock)),
        },
        None => match b {
            Block::Scene => {
                let mut h = h;
                append(&mut h.scene, line);
                assert(h@ == HeaderModel { scene: h0.scene + line@, ..h0 });
                Ok((h, b))
            },
            Block::Preamble => {
                let mut h = h;
                append(&mut h.comments, line);
                h.comments.push('\n');
                assert(h.comments@ =~= h0.comments + line@ + seq!['\n']);
                assert(h@ == HeaderModel { comments: h0.comments + line@ + seq!['\n'], ..h0 });
                Ok((h, b))
            },
            _ => match key_value(line) {
                Some((key, value)) => match read_pair(h, b, &key, value) {
                    Ok(h2) => Ok((h2, b)),
                    Err(e) => Err(ConfigError::Line(no, e)),
                },
                None => Err(ConfigError::Line(no, LineError::MalformedPair)),
            },
        },
    }
}

/// The header of a text with no `@key: value` pairs.
pub fn default_header() -> (r: CfgHeader)
    ensures
        r@ == default_model(),
{
    CfgHeader {
        comments: Vec::new(),
        target_name: chars_of("out.png"),
        target_pixel: PixelFormat::Rgb8,
        target_resolution: None,
        renderer_backend: BackendConfig::CPUDrivenS,
        renderer_bvh_acc: false,
        renderer_max_depth: 8,
        renderer_spp: 8,
        camera_pos: None,
        camera_dir: None,
        camera_fov: None,
        camera_viewport: None,
        scene: Vec::new(),
    }
}

/// Header and block once a line ends, after `newlines` line ends: a blank
/// line changes nothing; any other is read trimmed.
fn finish_line(h: CfgHeader, b: Block, line: &Vec<char>, newlines: usize) -> (r: Result<
    (CfgHeader, Block),
    ConfigError,
>)
    requires
        newlines + line@.len() <= usize::MAX,
    ensures
        match end_line(ScanModel { header: h@, block: b, line: line@, newlines: newlines as nat }) {
            Ok((m, nb)) => r matches Ok((h2, b2)) && h2@ == m && b2 == nb,
            Err(e) => r == Err::<(CfgHeader, Block), ConfigError>(e),
        },
{
    let l = trimmed(line);
    if l.len() == 0 {
        Ok((h, b))
    } else {
        read_line(h, b, &l, newlines + 1)
    }
}

/// Once the reading has failed, it stays failed with the same error.
proof fn lemma_scan_error_stays(t: Seq<char>, m: nat, n: nat)
    requires
        m <= n,
        scan(t, m) is Err,
    ensures
        scan(t, n) == scan(t, m),
    decreases n - m,
{
    if m < n {
        lemma_scan_error_stays(t, m, (n - 1) as nat);
    }
}

/// Reads the header of a `.cfg` text: the exact header that `header_of`
/// describes, or its first error.
pub fn from_text(text: &str) -> (r: Result<CfgHeader, ConfigError>)
    ensures
        match header_of(text@) {
            Ok(m) => r matches Ok(h) && h@ == m,
            Err(e) => r == Err::<CfgHeader, ConfigError>(e),
        },
{
    let t = chars_of(text);
    let mut h = default_header();
    let mut b = Block::Preamble;
    let mut line: Vec<char> = Vec::new();
    let mut newlines: usize = 0;
    let mut i: usize = 0;
    while i < t.len()
        invariant
            i <= t@.len(),
            t@ == text@,
            scan(t@, i as nat) == Ok::<ScanModel, ConfigError>(
                ScanModel { header: h@, block: b, line: line@, newlines: newlines as nat },
            ),
            newlines + line@.len() <= i,
        decreases t@.len() - i,
    {
        let c = t[i];
        if c == '\n' {
            match finish_line(h, b, &line, newlines) {
                Ok((h2, b2)) => {
                    h = h2;
                    b = b2;
                },
                Err(e) => {
                    proof {
                        lemma_scan_error_stays(t@, (i + 1) as nat, t@.len());
                    }
                    return Err(e);
                },
            }
            line = Vec::new();
            newlines = newlines + 1;
        } else {
            line.push(c);
        }
        i = i + 1;
    }
    assert(t@.len() == i);
    match finish_line(h, b, &line, newlines) {
        Ok((h, _)) => if h.scene.len() == 0 {
            Err(ConfigError::EmptyScene)
        } else {
            Ok(h)
        },
        Err(e) => Err(e),
    }
}

} // verus!
