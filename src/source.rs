//! Reads the `src` descriptor of a scene entity's material or mesh,
//! `origin: name` as in `prefab: mat.lambertian`, and tells which built-in
//! kind it names.
use vstd::prelude::*;
use crate::text::{CharClass, span_end, trim, lemma_span_end_bounds, skip, slice, trimmed, same_chars, chars_of};

verus! {

/// The built-in materials.
#[derive(Debug, Clone, Copy, PartialEq, Eq, Structural)]
pub enum MaterialKind {
    /// Sky gradient background, `mat.bg_sky`.
    BgSky,
    /// Flat background color, `mat.bg_pure`.
    BgPure,
    /// Diffuse surface, `mat.lambertian`.
    Lambertian,
    /// Light source, `mat.emissive`.
    Emissive,
}

/// The built-in meshes.
#[derive(Debug, Clone, Copy, PartialEq, Eq, Structural)]
pub enum MeshKind {
    /// `shape.sphere`.
    Sphere,
}

/// Why a source descriptor names nothing that can be built.
#[derive(Debug, Clone, Copy, PartialEq, Eq, Structural)]
pub enum SourceError {
    /// It does not have the form `origin: name`.
    Malformed,
    /// Its origin is not `prefab` (nor, for a mesh, `extern`).
    NotPrefab,
    /// A mesh from an external model file: not supported.
    External,
    /// No built-in goes by its name.
    Unknown,
}

/// `word` `:` ws* name+ starting at `i`, the name a maximal run of path
/// characters; when none follows the spaces, the last space is the name.
/// Gives the spans of origin and name.
pub open spec fn source_at(s: Seq<char>, i: int) -> Option<(int, int, int, int)> {
    let k = span_end(s, i, CharClass::Word);
    let j = span_end(s, k + 1, CharClass::Space);
    let e = span_end(s, j, CharClass::Path);
    if 0 <= i < s.len() && k > i && k < s.len() && s[k] == ':' {
        if e > j {
            Some((i, k, j, e))
        } else if j > k + 1 {
            Some((i, k, j - 1, j))
        } else {
            None
        }
    } else {
        None
    }
}

/// Origin and name of the leftmost descriptor at or after `i`.
pub open spec fn find_source(s: Seq<char>, i: int) -> Option<(Seq<char>, Seq<char>)>
    decreases s.len() - i,
{
    if i < 0 || i >= s.len() {
        None
    } else {
        match source_at(s, i) {
            Some((a, b, c, d)) => Some((s.subrange(a, b), s.subrange(c, d))),
            None => find_source(s, i + 1),
        }
    }
}

/// Origin and trimmed name of the descriptor in the trimmed `src`.
pub open spec fn origin_and_name(src: Seq<char>) -> Option<(Seq<char>, Seq<char>)> {
    match find_source(trim(src), 0) {
        Some((origin, name)) => Some((origin, trim(name))),
        None => None,
    }
}

pub open spec fn material_named(name: Seq<char>) -> Option<MaterialKind> {
    if name == "mat.bg_sky"@ {
        Some(MaterialKind::BgSky)
    } else if name == "mat.bg_pure"@ {
        Some(MaterialKind::BgPure)
    } else if name == "mat.lambertian"@ {
        Some(MaterialKind::Lambertian)
    } else if name == "mat.emissive"@ {
        Some(MaterialKind::Emissive)
    } else {
        None
    }
}

/// The material that a `src` descriptor names.
pub open spec fn material_of(src: Seq<char>) -> Result<MaterialKind, SourceError> {
    match origin_and_name(src) {
        None => Err(SourceError::Malformed),
        Some((origin, name)) => if origin != "prefab"@ {
            Err(SourceError::NotPrefab)
        } else {
            match material_named(name) {
                Some(k) => Ok(k),
                None => Err(SourceError::Unknown),
            }
        },
    }
}

/// The mesh that a `src` descriptor names.
pub open spec fn mesh_of(src: Seq<char>) -> Result<MeshKind, SourceError> {
    match origin_and_name(src) {
        None => Err(SourceError::Malformed),
        Some((origin, name)) => if origin == "prefab"@ {
            if name == "shape.sphere"@ {
                Ok(MeshKind::Sphere)
            } else {
                Err(SourceError::Unknown)
            }
        } else if origin == "extern"@ {
            Err(SourceError::External)
        } else {
            Err(SourceError::NotPrefab)
        },
    }
}

fn source_at_exec(s: &Vec<char>, i: usize) -> (r: Option<(usize, usize, usize, usize)>)
    requires
        i < s@.len(),
    ensures
        match source_at(s@, i as int) {
            Some((a, b, c, d)) => r == Some((a as usize, b as usize, c as usize, d as usize)),
            None => r is None,
        },
{
    let len = s.len();
    let k = skip(s, i, CharClass::Word);
    if !(k > i && k < s.len() && s[k] == ':') {
        return None;
    }
    let j = skip(s, k + 1, CharClass::Space);
    let e = skip(s, j, CharClass::Path);
    if e > j {
        Some((i, k, j, e))
    } else if j > k + 1 {
        Some((i, k, j - 1, j))
    } else {
        None
    }
}

/// Origin and trimmed name of the descriptor in `src`.
fn origin_and_name_exec(src: &str) -> (r: Option<(Vec<char>, Vec<char>)>)
    ensures
        match origin_and_name(src@) {
            Some((origin, name)) => r matches Some((o, n)) && o@ == origin && n@ == name,
            None => r is None,
        },
{
    let s = trimmed(&chars_of(src));
    let mut i: usize = 0;
    while i < s.len()
        invariant
            i <= s@.len(),
            s@ == trim(src@),
            find_source(s@, i as int) == find_source(s@, 0),
        decreases s@.len() - i,
    {
        match source_at_exec(&s, i) {
            Some((a, b, c, d)) => {
                proof {
                    lemma_span_end_bounds(s@, i as int, CharClass::Word);
                    lemma_span_end_bounds(s@, b + 1, CharClass::Space);
                    lemma_span_end_bounds(s@, span_end(s@, b + 1, CharClass::Space), CharClass::Path);
                }
                return Some((slice(&s, a, b), trimmed(&slice(&s, c, d))));
            },
            None => {},
        }
        i = i + 1;
    }
    None
}

/// Whether `v` holds exactly the characters of `lit`.
fn is_lit(v: &Vec<char>, lit: &str) -> (r: bool)
    ensures
        r == (v@ == lit@),
{
    same_chars(v, &chars_of(lit))
}

/// The material that a `src` descriptor such as `prefab: mat.bg_pure`
/// names.
pub fn material_source(src: &str) -> (r: Result<MaterialKind, SourceError>)
    ensures
        r == material_of(src@),
{
    match origin_and_name_exec(src) {
        None => Err(SourceError::Malformed),
        Some((origin, name)) => if !is_lit(&origin, "prefab") {
            Err(SourceError::NotPrefab)
        } else if is_lit(&name, "mat.bg_sky") {
            Ok(MaterialKind::BgSky)
        } else if is_lit(&name, "mat.bg_pure") {
            Ok(MaterialKind::BgPure)
        } else if is_lit(&name, "mat.lambertian") {
            Ok(MaterialKind::Lambertian)
        } else if is_lit(&name, "mat.emissive") {
            Ok(MaterialKind::Emissive)
        } else {
            Err(SourceError::Unknown)
        },
    }
}

/// The mesh that a `src` descriptor such as `prefab: shape.sphere` names.
pub fn mesh_source(src: &str) -> (r: Result<MeshKind, SourceError>)
    ensures
        r == mesh_of(src@),
{
    match origin_and_name_exec(src) {
        None => Err(SourceError::Malformed),
        Some((origin, name)) => if is_lit(&origin, "prefab") {
            if is_lit(&name, "shape.sphere") {
                Ok(MeshKind::Sphere)
            } else {
                Err(SourceError::Unknown)
            }
        } else if is_lit(&origin, "extern") {
            Err(SourceError::External)
        } else {
            Err(SourceError::NotPrefab)
        },
    }
}

} // verus!
