use std::sync::Arc;
use vstd::prelude::*;

use crate::describe::{debug_text, describe};
use crate::handle::{face_handle, face_target, file_handle, handle_view, FontFace, NativeFontHandle};
use crate::slot::{cached, handle_allowed, loaded_by, outcome, publish, resident};

verus! {

/// Why the bytes of a font could not be loaded.
#[derive(Clone, Copy, Debug, PartialEq, Eq)]
pub enum LoadError {
    /// The identifier names no accessible file or registered font.
    NotFound,
    /// The resource was found but reading it failed.
    Io,
    /// The font service reported a face without any backing file.
    NoBackingFile,
}

/// The content of optional initial bytes.
pub open spec fn given(bytes: Option<Vec<u8>>) -> Option<Seq<u8>> {
    match bytes {
        Some(b) => Some(b@),
        None => None,
    }
}

/// What a loader's outcome makes of an unloaded slot: its content on
/// success, nothing on failure.
pub open spec fn loader_outcome(out: Result<Vec<u8>, LoadError>) -> Result<Seq<u8>, LoadError> {
    match out {
        Ok(v) => Ok(v@),
        Err(e) => Err(e),
    }
}

/// A font resource named by an identifier, with a slot that caches its bytes
/// once they are in memory. Reading the slot takes `&self`; loading into it
/// takes `&mut self`, so a template shared between threads behind a
/// reader/writer lock is read in parallel and loaded under exclusive access.
pub struct FontTemplateData {
    bytes: Option<Arc<Vec<u8>>>,
    identifier: String,
}

impl FontTemplateData {
    /// The resident bytes: `None` while unloaded.
    pub closed spec fn slot(&self) -> Option<Seq<u8>> {
        resident(self.bytes)
    }

    /// The identifier, as characters.
    pub closed spec fn id(&self) -> Seq<char> {
        self.identifier@
    }

    /// A template for `identifier`, loaded if `bytes` are given, else
    /// unloaded. Never fails.
    pub fn new(identifier: String, bytes: Option<Vec<u8>>) -> (r: Result<
        FontTemplateData,
        LoadError,
    >)
        ensures
            r matches Ok(t) && t.id() == identifier@ && t.slot() == given(bytes),
    {
        let slot: Option<Arc<Vec<u8>>> = match bytes {
            Some(b) => Some(Arc::new(b)),
            None => None,
        };
        Ok(FontTemplateData { bytes: slot, identifier })
    }

    /// The identifier: a file path or a font-service lookup key.
    pub fn identifier(&self) -> (r: &String)
        ensures
            r@ == self.id(),
    {
        &self.identifier
    }

    /// The bytes of this font. Resident bytes are handed back as they are and
    /// `load` is not called. Otherwise `load` is called once with the
    /// identifier; it may block on disk or font-service I/O. What it produces
    /// is made resident and handed back; its error is handed back and the
    /// slot stays unloaded.
    pub fn bytes<F: FnOnce(&str) -> Result<Vec<u8>, LoadError>>(&mut self, load: F) -> (r: Result<
        Arc<Vec<u8>>,
        LoadError,
    >)
        requires
            forall|s: &str| #[trigger] load.requires((s,)),
        ensures
            final(self).id() == old(self).id(),
            loaded_by(old(self).slot(), final(self).slot(), outcome(r)),
            old(self).slot() is None ==> exists|s: &str, out: Result<Vec<u8>, LoadError>|
                s@ == old(self).id() && #[trigger] load.ensures((s,), out) && outcome(r)
                    == loader_outcome(out),
    {
        if self.bytes.is_some() {
            let r = cached(&self.bytes);
            return Ok(r.unwrap());
        }
        let out = load(self.identifier.as_str());
        match out {
            Ok(loaded) => {
                let r = publish(&mut self.bytes, loaded);
                Ok(r)
            },
            Err(e) => Err(e),
        }
    }

    /// A shared copy of the bytes if they are resident; never loads.
    pub fn bytes_if_in_memory(&self) -> (r: Option<Arc<Vec<u8>>>)
        ensures
            resident(r) == self.slot(),
    {
        cached(&self.bytes)
    }

    /// The handle of this font as a file on disk, the identifier being its
    /// path, given exactly while no bytes are resident. Reads nothing from
    /// outside.
    pub fn native_font(&self) -> (r: Option<NativeFontHandle>)
        ensures
            (r is Some) == handle_allowed(self.slot()),
            r matches Some(h) ==> h.path@ == self.id() && h.index == 0,
    {
        if self.bytes.is_none() {
            Some(file_handle(&self.identifier))
        } else {
            None
        }
    }

    /// The handle of this font as the face `face` that a font service
    /// resolved its identifier to: while no bytes are resident, the path of
    /// the face's first backing file and the face's index, if that path
    /// exists; `None` otherwise.
    pub fn native_font_for_face(&self, face: &FontFace) -> (r: Option<NativeFontHandle>)
        ensures
            handle_allowed(self.slot()) ==> handle_view(r) == face_target(*face),
            !handle_allowed(self.slot()) ==> r is None,
    {
        if self.bytes.is_none() {
            face_handle(face)
        } else {
            None
        }
    }

    /// A description for debugging: the number of resident bytes, or `None`
    /// while unloaded, and the identifier. The bytes themselves never appear.
    pub fn debug_string(&self) -> (r: String)
        ensures
            r@ == debug_text(
                match self.slot() {
                    Some(b) => Some(b.len()),
                    None => None,
                },
                self.id(),
            ),
    {
        let len: Option<usize> = match &self.bytes {
            Some(b) => Some(b.len()),
            None => None,
        };
        describe(len, self.identifier.as_str())
    }
}

} // verus!
