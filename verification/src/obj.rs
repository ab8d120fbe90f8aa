//! Loading a mesh from the text of a Wavefront OBJ model.
//!
//! The `tobj` crate parses the text. The loader has it triangulate every
//! face and use one index per vertex for position and normal.
//!
//! The loader reads no file. A model may name material libraries, and a
//! change to a material that one of them holds starts a new sub-mesh. The
//! caller asks which libraries the model names, reads them, and hands over
//! their texts, one after the other, as one text; where the model names
//! several, the parser finds that whole text under each name.
//!
//! Before the parser sees a text, the references of its faces are scanned.
//! A corner of a face is written `v`, `v/vt`, `v//vn` or `v/vt/vn`; a
//! negative reference counts back from the last element read. The parser
//! computes with the texture and normal references unchecked, so a text is
//! only parsed where these stay small: below `REFERENCE_LIMIT`, and no
//! further back than one before the first element.

use vstd::prelude::*;
use crate::mesh::{
    assemble, assembled, canonical_models, law_assembled_reads_numbers, same_mesh, views_of,
    GeometryLoadError, Mesh, MeshData, SubMesh, SubMeshData,
};
use crate::mtl::{check_colours, colours_complete};

verus! {

#[verifier::external_type_specification]
#[verifier::external_body]
pub struct ExLoadError(tobj::LoadError);

/// The byte that ends a line.
pub const NEWLINE: u8 = 0x0a;

/// The byte `/`, which parts the references of one corner of a face.
pub const SLASH: u8 = 0x2f;

/// The byte `-`.
pub const MINUS: u8 = 0x2d;

/// The byte `+`.
pub const PLUS: u8 = 0x2b;

/// A texture or normal reference is read as far as its value stays below
/// this limit.
pub const REFERENCE_LIMIT: u32 = 1_000_000_000;

/// Is the byte one of `0` to `9`?
pub open spec fn is_digit(b: u8) -> bool {
    0x30 <= b <= 0x39
}

/// Is the byte white space within a line: a tab, a vertical tab, a form
/// feed, a carriage return or a space?
pub open spec fn is_space(b: u8) -> bool {
    b == 0x09 || b == 0x0b || b == 0x0c || b == 0x0d || b == 0x20
}

/// Is the byte part of a character outside ASCII? Such a character may be
/// white space to the parser.
pub open spec fn is_beyond_ascii(b: u8) -> bool {
    b >= 0x80
}

/// How far the first word of a line has been read.
#[derive(Clone, Copy, Debug, PartialEq, Eq, Structural)]
pub enum Head {
    /// Nothing but white space so far.
    Blank,
    /// The word is `v` so far.
    V,
    /// The word is `vt` so far.
    Vt,
    /// The word is `vn` so far.
    Vn,
    /// The word is another one, or it is over.
    Word,
}

/// How far a reference behind a slash has been read.
#[derive(Clone, Copy, Debug, PartialEq, Eq, Structural)]
pub enum Reference {
    /// The scan is not within a reference.
    Outside,
    /// The slash has just been read.
    Begun,
    /// Digits without a sign, or behind `+`, with this value so far.
    Forward(u32),
    /// Digits behind `-`, with this value so far.
    Backward(u32),
}

/// What the scan of a text knows after some of its bytes.
#[derive(Clone, Copy, Debug, PartialEq, Eq, Structural)]
pub struct Scan {
    /// No reference so far is out of bounds.
    pub ok: bool,
    /// How far the first word of the line has been read.
    pub head: Head,
    /// The line may name a face or a line element: its first byte that is no
    /// white space is `f`, `l` or beyond ASCII.
    pub face: bool,
    /// The line has held ASCII bytes only so far, so its words are parted by
    /// the bytes of `is_space` and by nothing else.
    pub plain: bool,
    /// The slashes since the last white space; 3 stands for 3 or more.
    pub slashes: u8,
    /// How far a reference has been read.
    pub reference: Reference,
    /// The lines so far whose first word is `vt`: no more than the texture
    /// coordinates that the parser has read.
    pub textures: usize,
    /// The lines so far whose first word is `vn`: no more than the normals
    /// that the parser has read.
    pub normals: usize,
}

/// The scan before the first byte.
pub open spec fn scan_start() -> Scan {
    Scan {
        ok: true,
        head: Head::Blank,
        face: false,
        plain: true,
        slashes: 0,
        reference: Reference::Outside,
        textures: 0,
        normals: 0,
    }
}

/// One more, but no more than the type holds.
pub open spec fn one_more(n: usize) -> usize {
    if n < usize::MAX {
        (n + 1) as usize
    } else {
        n
    }
}

/// The scan at the start of the next line: what was found stays, what was
/// known of the line goes.
pub open spec fn next_line(s: Scan) -> Scan {
    Scan {
        head: Head::Blank,
        face: false,
        plain: true,
        slashes: 0,
        reference: Reference::Outside,
        ..s
    }
}

/// The scan after one more byte of the first word of a line. A line counts
/// as a `vt` or `vn` line once white space follows these two letters. A line
/// may name a face where its first word begins with `f` or `l`, or with a
/// byte beyond ASCII, behind which the word may begin anew.
pub open spec fn read_head(s: Scan, b: u8) -> Scan {
    match s.head {
        Head::Blank => if is_space(b) {
            s
        } else if is_beyond_ascii(b) {
            Scan { head: Head::Word, face: true, plain: false, ..s }
        } else if b == 0x66 || b == 0x6c {
            Scan { head: Head::Word, face: true, ..s }
        } else if b == 0x76 {
            Scan { head: Head::V, ..s }
        } else {
            Scan { head: Head::Word, ..s }
        },
        Head::V => if b == 0x74 {
            Scan { head: Head::Vt, ..s }
        } else if b == 0x6e {
            Scan { head: Head::Vn, ..s }
        } else {
            Scan { head: Head::Word, ..s }
        },
        Head::Vt => if is_space(b) {
            Scan { head: Head::Word, textures: one_more(s.textures), ..s }
        } else {
            Scan { head: Head::Word, ..s }
        },
        Head::Vn => if is_space(b) {
            Scan { head: Head::Word, normals: one_more(s.normals), ..s }
        } else {
            Scan { head: Head::Word, ..s }
        },
        Head::Word => s,
    }
}

/// How far back the reference at hand may count without leaving its list by
/// more than one: the number of texture coordinates behind the first slash
/// of a word, the number of normals behind the second. Where the words of
/// the line are not known for sure, or behind a third slash, it is the
/// smaller of the two.
pub open spec fn elements_behind(s: Scan) -> usize {
    if s.plain && s.slashes == 1 {
        s.textures
    } else if s.plain && s.slashes == 2 {
        s.normals
    } else if s.textures <= s.normals {
        s.textures
    } else {
        s.normals
    }
}

/// The scan with the reference at hand found out of bounds.
pub open spec fn refused(s: Scan) -> Scan {
    Scan { ok: false, reference: Reference::Outside, ..s }
}

/// The scan after one more digit of a reference. The value must stay below
/// `REFERENCE_LIMIT`; behind `-` it must also be at most one more than the
/// number of elements to count back over.
pub open spec fn read_digit(s: Scan, b: u8) -> Scan {
    let d = (b - 0x30) as u32;
    match s.reference {
        Reference::Forward(x) => if x >= REFERENCE_LIMIT / 10 {
            refused(s)
        } else {
            Scan { reference: Reference::Forward((x * 10 + d) as u32), ..s }
        },
        Reference::Backward(x) => if x >= REFERENCE_LIMIT / 10 {
            refused(s)
        } else if x * 10 + d > 0 && x * 10 + d - 1 > elements_behind(s) {
            refused(s)
        } else {
            Scan { reference: Reference::Backward((x * 10 + d) as u32), ..s }
        },
        _ => s,
    }
}

/// The scan after one more byte of a line that may name a face. White space
/// ends a word, a slash begins a reference, a sign may stand at its start,
/// and the first byte that is no digit ends it.
pub open spec fn read_face(s: Scan, b: u8) -> Scan {
    let s = if is_beyond_ascii(b) {
        Scan { plain: false, ..s }
    } else {
        s
    };
    if is_space(b) {
        Scan { slashes: 0, reference: Reference::Outside, ..s }
    } else if b == SLASH {
        Scan {
            slashes: if s.slashes < 3 {
                (s.slashes + 1) as u8
            } else {
                s.slashes
            },
            reference: Reference::Begun,
            ..s
        }
    } else {
        match s.reference {
            Reference::Outside => s,
            Reference::Begun => if b == MINUS {
                Scan { reference: Reference::Backward(0), ..s }
            } else if b == PLUS {
                Scan { reference: Reference::Forward(0), ..s }
            } else if is_digit(b) {
                read_digit(Scan { reference: Reference::Forward(0), ..s }, b)
            } else {
                Scan { reference: Reference::Outside, ..s }
            },
            _ => if is_digit(b) {
                read_digit(s, b)
            } else {
                Scan { reference: Reference::Outside, ..s }
            },
        }
    }
}

/// The scan after one more byte.
pub open spec fn scan_step(s: Scan, b: u8) -> Scan {
    if b == NEWLINE {
        next_line(s)
    } else {
        let s = read_head(s, b);
        if s.face {
            read_face(s, b)
        } else {
            s
        }
    }
}

/// The scan after the first `n` bytes of a text.
pub open spec fn scanned(bytes: Seq<u8>, n: int) -> Scan
    decreases n,
{
    if n <= 0 {
        scan_start()
    } else {
        scan_step(scanned(bytes, n - 1), bytes[n - 1])
    }
}

/// Every texture and normal reference of a face stays in bounds. Lines that
/// name no face, such as comments, are not looked at.
pub open spec fn references_supported(bytes: Seq<u8>) -> bool {
    scanned(bytes, bytes.len() as int).ok
}

/// What `tobj` makes of the text of a model with these two options, when it
/// finds the given text under the name of every material library: the
/// sub-meshes in the order of the text, each vector given by its numbers, or
/// the error that the parser stopped at.
pub uninterp spec fn obj_models(
    bytes: Seq<u8>,
    materials: Seq<u8>,
    single_index: bool,
    triangulate: bool,
) -> Result<Seq<SubMeshData>, tobj::LoadError>;

/// The names of the material libraries that `tobj` asks for while it parses
/// the text of a model with these two options, in the order of its asking.
pub uninterp spec fn obj_libraries(bytes: Seq<u8>, single_index: bool, triangulate: bool) -> Seq<
    Seq<char>,
>;

/// The texts of a list of strings.
pub open spec fn texts_of(names: Seq<String>) -> Seq<Seq<char>> {
    names.map_values(|name: String| name@)
}

/// `tobj::load_obj_buf` on the bytes, with the two options as given, the
/// others off, and a material loader that gives, whatever the name, what
/// `tobj::load_mtl_buf` makes of `materials`. Every three floats of
/// `positions` and of `normals` become one vector, and `indices` is moved as
/// it is. The numbers of the vectors depend on the arguments alone; the
/// parser divides, so that a component may be a NaN.
#[verifier::external_body]
pub(crate) fn parse_obj(
    bytes: &[u8],
    materials: &[u8],
    single_index: bool,
    triangulate: bool,
) -> (r: Result<Vec<SubMesh>, tobj::LoadError>)
    requires
        references_supported(bytes@),
        colours_complete(materials@),
    ensures
        match r {
            Ok(models) => obj_models(bytes@, materials@, single_index, triangulate) == Ok::<
                Seq<SubMeshData>,
                tobj::LoadError,
            >(canonical_models(views_of(models@))),
            Err(e) => obj_models(bytes@, materials@, single_index, triangulate) == Err::<
                Seq<SubMeshData>,
                tobj::LoadError,
            >(e),
        },
{
    let options = tobj::LoadOptions { single_index, triangulate, ..Default::default() };
    let mut reader = bytes;
    let library = tobj::load_mtl_buf(&mut &materials[..]);
    let (models, _) = tobj::load_obj_buf(&mut reader, &options, |_| library.clone())?;
    Ok(models.into_iter().map(|m| SubMesh {
        positions: m.mesh.positions.chunks_exact(3).map(glam::Vec3::from_slice).collect(),
        normals: m.mesh.normals.chunks_exact(3).map(glam::Vec3::from_slice).collect(),
        indices: m.mesh.indices,
    }).collect())
}

/// `tobj::load_obj_buf` on the bytes, with the two options as given and the
/// others off. The material loader finds nothing and keeps each name that it
/// is asked for; the names depend on the bytes and the options alone. What
/// the parser returns is dropped.
#[verifier::external_body]
pub(crate) fn requested_libraries(bytes: &[u8], single_index: bool, triangulate: bool) -> (r: Vec<
    String,
>)
    requires
        references_supported(bytes@),
    ensures
        texts_of(r@) == obj_libraries(bytes@, single_index, triangulate),
{
    let options = tobj::LoadOptions { single_index, triangulate, ..Default::default() };
    let mut reader = bytes;
    let names = std::cell::RefCell::new(Vec::new());
    let keep = |name: &std::path::Path| {
        names.borrow_mut().push(name.to_string_lossy().into_owned());
        Err(tobj::LoadError::OpenFileFailed)
    };
    let _ = tobj::load_obj_buf(&mut reader, &options, keep);
    names.into_inner()
}

fn byte_is_space(b: u8) -> (r: bool)
    ensures
        r == is_space(b),
{
    b == 0x09 || b == 0x0b || b == 0x0c || b == 0x0d || b == 0x20
}

fn count_one_more(n: usize) -> (r: usize)
    ensures
        r == one_more(n),
{
    if n < usize::MAX {
        n + 1
    } else {
        n
    }
}

fn scan_head(s: Scan, b: u8) -> (r: Scan)
    ensures
        r == read_head(s, b),
{
    match s.head {
        Head::Blank => if byte_is_space(b) {
            s
        } else if b >= 0x80 {
            Scan { head: Head::Word, face: true, plain: false, ..s }
        } else if b == 0x66 || b == 0x6c {
            Scan { head: Head::Word, face: true, ..s }
        } else if b == 0x76 {
            Scan { head: Head::V, ..s }
        } else {
            Scan { head: Head::Word, ..s }
        },
        Head::V => if b == 0x74 {
            Scan { head: Head::Vt, ..s }
        } else if b == 0x6e {
            Scan { head: Head::Vn, ..s }
        } else {
            Scan { head: Head::Word, ..s }
        },
        Head::Vt => if byte_is_space(b) {
            Scan { head: Head::Word, textures: count_one_more(s.textures), ..s }
        } else {
            Scan { head: Head::Word, ..s }
        },
        Head::Vn => if byte_is_space(b) {
            Scan { head: Head::Word, normals: count_one_more(s.normals), ..s }
        } else {
            Scan { head: Head::Word, ..s }
        },
        Head::Word => s,
    }
}

fn count_behind(s: &Scan) -> (r: usize)
    ensures
        r == elements_behind(*s),
{
    if s.plain && s.slashes == 1 {
        s.textures
    } else if s.plain && s.slashes == 2 {
        s.normals
    } else if s.textures <= s.normals {
        s.textures
    } else {
        s.normals
    }
}

fn scan_digit(s: Scan, b: u8) -> (r: Scan)
    requires
        is_digit(b),
    ensures
        r == read_digit(s, b),
{
    let d: u32 = (b - 0x30) as u32;
    match s.reference {
        Reference::Forward(x) => if x >= REFERENCE_LIMIT / 10 {
            Scan { ok: false, reference: Reference::Outside, ..s }
        } else {
            Scan { reference: Reference::Forward(x * 10 + d), ..s }
        },
        Reference::Backward(x) => if x >= REFERENCE_LIMIT / 10 {
            Scan { ok: false, reference: Reference::Outside, ..s }
        } else {
            let value: u32 = x * 10 + d;
            if value > 0 && (value - 1) as u64 > count_behind(&s) as u64 {
                Scan { ok: false, reference: Reference::Outside, ..s }
            } else {
                Scan { reference: Reference::Backward(value), ..s }
            }
        },
        _ => s,
    }
}

fn scan_face(s: Scan, b: u8) -> (r: Scan)
    ensures
        r == read_face(s, b),
{
    let s = if b >= 0x80 {
        Scan { plain: false, ..s }
    } else {
        s
    };
    let digit = 0x30 <= b && b <= 0x39;
    if byte_is_space(b) {
        Scan { slashes: 0, reference: Reference::Outside, ..s }
    } else if b == SLASH {
        let slashes: u8 = if s.slashes < 3 {
            s.slashes + 1
        } else {
            s.slashes
        };
        Scan { slashes, reference: Reference::Begun, ..s }
    } else {
        match s.reference {
            Reference::Outside => s,
            Reference::Begun => if b == MINUS {
                Scan { reference: Reference::Backward(0), ..s }
            } else if b == PLUS {
                Scan { reference: Reference::Forward(0), ..s }
            } else if digit {
                scan_digit(Scan { reference: Reference::Forward(0), ..s }, b)
            } else {
                Scan { reference: Reference::Outside, ..s }
            },
            _ => if digit {
                scan_digit(s, b)
            } else {
                Scan { reference: Reference::Outside, ..s }
            },
        }
    }
}

/// Takes the scan one byte further.
pub fn scan_byte(s: Scan, b: u8) -> (r: Scan)
    ensures
        r == scan_step(s, b),
{
    if b == NEWLINE {
        Scan {
            head: Head::Blank,
            face: false,
            plain: true,
            slashes: 0,
            reference: Reference::Outside,
            ..s
        }
    } else {
        let s = scan_head(s, b);
        if s.face {
            scan_face(s, b)
        } else {
            s
        }
    }
}

/// Do all texture and normal references of the faces of the text stay in
/// bounds?
pub fn check_references(bytes: &[u8]) -> (r: bool)
    ensures
        r == references_supported(bytes@),
{
    let mut s = Scan {
        ok: true,
        head: Head::Blank,
        face: false,
        plain: true,
        slashes: 0,
        reference: Reference::Outside,
        textures: 0,
        normals: 0,
    };
    let mut i: usize = 0;
    while i < bytes.len()
        invariant
            i <= bytes.len(),
            s == scanned(bytes@, i as int),
        decreases bytes.len() - i,
    {
        s = scan_byte(s, bytes[i]);
        i = i + 1;
    }
    s.ok
}

/// A reference that was found out of bounds stays so, whatever follows.
pub proof fn law_refusal_is_final(bytes: Seq<u8>, n: int, m: int)
    requires
        0 <= n <= m,
        !scanned(bytes, n).ok,
    ensures
        !scanned(bytes, m).ok,
    decreases m - n,
{
    if n < m {
        law_refusal_is_final(bytes, n, m - 1);
    }
}

/// The material libraries that a model names, in the order in which the
/// parser asks for them, or `None` where the references of the text are out
/// of bounds and the parser is not asked.
pub open spec fn named_libraries(bytes: Seq<u8>) -> Option<Seq<Seq<char>>> {
    if references_supported(bytes) {
        Some(obj_libraries(bytes, true, true))
    } else {
        None
    }
}

/// Finds the material libraries that the text of a model names.
pub fn material_libraries(bytes: &[u8]) -> (r: Result<Vec<String>, GeometryLoadError>)
    ensures
        match r {
            Ok(names) => named_libraries(bytes@) == Some(texts_of(names@)),
            Err(e) => named_libraries(bytes@) is None
                && e == GeometryLoadError::UnsupportedReference,
        },
{
    if !check_references(bytes) {
        return Err(GeometryLoadError::UnsupportedReference);
    }
    Ok(requested_libraries(bytes, true, true))
}

/// The mesh of the text of a model, with every NaN among its vertices
/// taken for one. Where the references of the text are out of bounds, where
/// a colour of the material library is not given in full, where the parser
/// stops at an error, or where the sub-meshes cannot be put together, it is
/// that error instead.
pub open spec fn loaded(bytes: Seq<u8>, materials: Seq<u8>) -> Result<MeshData, GeometryLoadError> {
    if !references_supported(bytes) {
        Err(GeometryLoadError::UnsupportedReference)
    } else if !colours_complete(materials) {
        Err(GeometryLoadError::IncompleteColour)
    } else {
        match obj_models(bytes, materials, true, true) {
            Err(e) => Err(GeometryLoadError::Parse(e)),
            Ok(models) => assembled(models),
        }
    }
}

/// Loads the mesh of a model from the text of its OBJ file and the text of
/// its material libraries, with every face triangulated and one index per
/// vertex. For a model without materials, `materials` is empty.
///
/// The mesh is the one of the text but for the pattern of a NaN: a position
/// or a normal of the text may hold one, a synthesized normal never does.
pub fn load_obj(bytes: &[u8], materials: &[u8]) -> (r: Result<Mesh, GeometryLoadError>)
    ensures
        match r {
            Ok(mesh) => mesh.well_formed() && loaded(bytes@, materials@) is Ok && same_mesh(
                mesh@,
                loaded(bytes@, materials@)->Ok_0,
            ),
            Err(e) => loaded(bytes@, materials@) == Err::<MeshData, GeometryLoadError>(e),
        },
{
    if !check_references(bytes) {
        return Err(GeometryLoadError::UnsupportedReference);
    }
    if !check_colours(materials) {
        return Err(GeometryLoadError::IncompleteColour);
    }
    match parse_obj(bytes, materials, true, true) {
        Err(e) => Err(GeometryLoadError::Parse(e)),
        Ok(models) => {
            proof {
                law_assembled_reads_numbers(views_of(models@));
            }
            assemble(&models)
        },
    }
}

} // verus!
