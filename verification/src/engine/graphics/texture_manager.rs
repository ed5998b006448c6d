//! The textures that were loaded, by name.

use vstd::prelude::*;
use crate::engine::util::name_table::NameTable;

verus! {

/// A text without the given ending, taken off as often as the text ends
/// with it.
pub open spec fn without_ending(text: Seq<char>, ending: Seq<char>) -> Seq<char>
    decreases text.len(),
{
    if 0 < ending.len() <= text.len() && text.subrange(text.len() - ending.len(), text.len() as int)
        == ending {
        without_ending(text.subrange(0, text.len() - ending.len()), ending)
    } else {
        text
    }
}

/// The name under which the texture of an image file is kept: the file's
/// name without the endings of the image formats.
pub open spec fn texture_name_of(file_name: Seq<char>) -> Seq<char> {
    without_ending(without_ending(without_ending(file_name, ".png"@), ".jpg"@), ".jpeg"@)
}

/// Whether a file extension is that of an image format that the engine
/// loads.
pub open spec fn is_image_extension(extension: Seq<char>) -> bool {
    extension == "png"@ || extension == "jpg"@ || extension == "jpeg"@
}

/// `str::trim_end_matches` with a text as the pattern.
///
/// The contract claims what the standard library documents: every ending
/// that matches the pattern is removed, repeatedly.
#[verifier::external_body]
fn trim_end_matches(text: &str, ending: &str) -> (trimmed: String)
    requires
        ending@.len() > 0,
    ensures
        trimmed@ == without_ending(text@, ending@),
{
    text.trim_end_matches(ending).to_string()
}

/// The name under which to keep the texture of a file, if the file's
/// extension is that of an image.
pub fn texture_name(file_name: &str, extension: &str) -> (name: Option<String>)
    ensures
        name is Some <==> is_image_extension(extension@),
        name matches Some(text) ==> text@ == texture_name_of(file_name@),
{
    let given = extension.to_owned();
    if given == "png".to_owned() || given == "jpg".to_owned() || given == "jpeg".to_owned() {
        proof {
            reveal_strlit(".png");
            reveal_strlit(".jpg");
            reveal_strlit(".jpeg");
        }
        let first = trim_end_matches(file_name, ".png");
        let second = trim_end_matches(first.as_str(), ".jpg");
        Some(trim_end_matches(second.as_str(), ".jpeg"))
    } else {
        None
    }
}

/// The handles of the loaded textures, by name.
pub struct TextureManager {
    textures: NameTable<u32>,
}

impl View for TextureManager {
    type V = Map<Seq<char>, u32>;

    closed spec fn view(&self) -> Map<Seq<char>, u32> {
        self.textures@
    }
}

impl TextureManager {
    /// The invariant, which `new` establishes and every operation keeps.
    pub closed spec fn well_formed(&self) -> bool {
        self.textures.well_formed()
    }

    /// A manager without textures.
    pub fn new() -> (manager: Self)
        ensures
            manager.well_formed(),
            manager@ == Map::<Seq<char>, u32>::empty(),
    {
        TextureManager { textures: NameTable::new() }
    }

    /// Keeps the handle of a texture that was loaded under a name, unless
    /// the name has a texture already. Returns the handle that the name has
    /// from now on.
    pub fn load_texture(&mut self, name: &str, texture_id: u32) -> (kept: u32)
        requires
            old(self).well_formed(),
        ensures
            final(self).well_formed(),
            old(self)@.contains_key(name@) ==> kept == old(self)@[name@] && final(self)@ == old(self)@,
            !old(self)@.contains_key(name@) ==> kept == texture_id && final(self)@ == old(self)@.insert(
                name@,
                texture_id,
            ),
    {
        match self.textures.get(name) {
            Some(existing) => *existing,
            None => {
                self.textures.insert(name.to_owned(), texture_id);
                texture_id
            },
        }
    }

    /// The handle of the texture under a name.
    pub fn get_texture_id(&self, name: &str) -> (texture: Option<u32>)
        requires
            self.well_formed(),
        ensures
            texture == if self@.contains_key(name@) {
                Some(self@[name@])
            } else {
                None
            },
    {
        match self.textures.get(name) {
            Some(existing) => Some(*existing),
            None => None,
        }
    }
}

} // verus!
