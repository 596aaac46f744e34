use vstd::prelude::*;

use crate::template::LoadError;

verus! {

/// A locator for font data that still lives outside the process: the file
/// that holds it and the index of the face within that file.
#[derive(Clone, Debug, PartialEq, Eq)]
pub struct NativeFontHandle {
    pub path: String,
    pub index: u32,
}

/// What a font service reports of one face: the path of each backing file,
/// `None` where a file has no path on disk, and the face's index within its
/// collection.
#[derive(Clone, Debug, PartialEq, Eq)]
pub struct FontFace {
    pub files: Vec<Option<String>>,
    pub index: u32,
}

/// The path of a face's first backing file, if it has files and that one has
/// a path.
pub open spec fn first_path(face: FontFace) -> Option<Seq<char>> {
    if face.files@.len() > 0 {
        match face.files@[0] {
            Some(p) => Some(p@),
            None => None,
        }
    } else {
        None
    }
}

/// A handle as its path and index.
pub open spec fn handle_view(h: Option<NativeFontHandle>) -> Option<(Seq<char>, u32)> {
    match h {
        Some(h) => Some((h.path@, h.index)),
        None => None,
    }
}

/// The path and index a face resolves to: its first backing file's path and
/// its own index, where that path exists.
pub open spec fn face_target(face: FontFace) -> Option<(Seq<char>, u32)> {
    match first_path(face) {
        Some(p) => Some((p, face.index)),
        None => None,
    }
}

/// The handle of a file-backed font: its identifier is the path, and such a
/// file holds a single face.
pub fn file_handle(identifier: &String) -> (r: NativeFontHandle)
    ensures
        r.path@ == identifier@,
        r.index == 0,
{
    NativeFontHandle { path: identifier.clone(), index: 0 }
}

/// The handle of a face found through a font service: the path of its first
/// backing file and the face's own index. `None` where no such path exists.
pub fn face_handle(face: &FontFace) -> (r: Option<NativeFontHandle>)
    ensures
        handle_view(r) == face_target(*face),
{
    if face.files.len() == 0 {
        return None;
    }
    match &face.files[0] {
        Some(p) => Some(NativeFontHandle { path: p.clone(), index: face.index }),
        None => None,
    }
}

/// The first of a face's backing files, whose content is the font's bytes.
/// A face without files is refused.
pub fn first_backing_file<T>(files: &Vec<T>) -> (r: Result<&T, LoadError>)
    ensures
        files@.len() > 0 ==> (r matches Ok(f) && *f == files@[0]),
        files@.len() == 0 ==> r == Err::<&T, LoadError>(LoadError::NoBackingFile),
{
    if files.len() == 0 {
        Err(LoadError::NoBackingFile)
    } else {
        Ok(&files[0])
    }
}

/// The bytes of a face found through a font service: the content of its
/// first backing file, read by `read`. A face without files is refused, and
/// nothing is read then.
pub fn load_first_file<T, G: FnOnce(&T) -> Result<Vec<u8>, LoadError>>(files: &Vec<T>, read: G) -> (r:
    Result<Vec<u8>, LoadError>)
    requires
        forall|f: &T| #[trigger] read.requires((f,)),
    ensures
        files@.len() == 0 ==> r == Err::<Vec<u8>, LoadError>(LoadError::NoBackingFile),
        files@.len() > 0 ==> read.ensures((&files@[0],), r),
{
    let first = first_backing_file(files)?;
    read(first)
}

} // verus!
