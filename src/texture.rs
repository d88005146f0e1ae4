//! The texture table: textures registered with imgui's id allocator, plus
//! the reserved id that always denotes the font atlas.
use vstd::prelude::*;

verus! {

/// The id handed to imgui for the font atlas texture.
pub const FONT_TEXTURE_ID: usize = usize::MAX;

#[verifier::external_type_specification]
#[verifier::external_body]
#[verifier::reject_recursive_types(T)]
pub struct ExTextures<T>(imgui::Textures<T>);

/// What an imgui texture table maps each registered id to.
pub uninterp spec fn texture_entries(t: imgui::Textures<usize>) -> Map<usize, usize>;

/// The id that an imgui texture table hands out on its next insertion.
pub uninterp spec fn texture_next_id(t: imgui::Textures<usize>) -> nat;

/// Relies on imgui::Textures::new: an empty table whose first id is zero.
#[verifier::external_body]
fn textures_new() -> (r: imgui::Textures<usize>)
    ensures
        texture_entries(r).dom().is_empty(),
        texture_next_id(r) == 0,
{
    imgui::Textures::new()
}

/// Relies on imgui::Textures::insert: the value is stored under the id the
/// table was about to hand out, which is returned, and the next id grows by
/// one (it panics on overflow, hence the bound).
#[verifier::external_body]
fn textures_insert(t: &mut imgui::Textures<usize>, value: usize) -> (r: usize)
    requires
        texture_next_id(*old(t)) < usize::MAX,
    ensures
        r == texture_next_id(*old(t)),
        texture_next_id(*final(t)) == texture_next_id(*old(t)) + 1,
        texture_entries(*final(t)) == texture_entries(*old(t)).insert(r, value),
{
    t.insert(value).id()
}

/// Relies on imgui::Textures::get: the entry stored under the id, if any.
#[verifier::external_body]
fn textures_get(t: &imgui::Textures<usize>, id: usize) -> (r: Option<usize>)
    ensures
        r == (if texture_entries(*t).contains_key(id) {
            Some(texture_entries(*t)[id])
        } else {
            None::<usize>
        }),
{
    t.get(imgui::TextureId::from(id)).copied()
}

/// The texture a draw command samples from.
#[derive(Clone, Copy, Debug, PartialEq, Eq, Structural)]
pub enum TextureBinding {
    /// The font atlas uploaded at start-up.
    Font,
    /// A registered texture, by the slot its owner gave when registering it.
    Registered(usize),
}

/// How a texture id resolves against a table, falling back to the font
/// atlas for ids that were never registered.
pub open spec fn resolve_spec(entries: Map<usize, usize>, id: usize) -> TextureBinding {
    if id == FONT_TEXTURE_ID {
        TextureBinding::Font
    } else if entries.contains_key(id) {
        TextureBinding::Registered(entries[id])
    } else {
        TextureBinding::Font
    }
}

/// An id that is neither the font id nor registered resolves to the font
/// atlas: resolution never fails.
pub proof fn lemma_unregistered_resolves_to_font(entries: Map<usize, usize>, id: usize)
    requires
        !entries.contains_key(id),
    ensures
        resolve_spec(entries, id) == TextureBinding::Font,
{
}

/// Maps texture ids to textures. Registered ids are handed out in increasing
/// order from zero and never reach the reserved font id.
pub struct TextureTable {
    textures: imgui::Textures<usize>,
    next: usize,
}

impl TextureTable {
    /// The registered ids and the slot each one stands for.
    pub closed spec fn entries(&self) -> Map<usize, usize> {
        texture_entries(self.textures)
    }

    /// The id the next registration receives.
    pub closed spec fn next_id(&self) -> nat {
        self.next as nat
    }

    pub closed spec fn wf(&self) -> bool {
        &&& texture_next_id(self.textures) == self.next
        &&& self.next_id() <= FONT_TEXTURE_ID
        &&& forall|k: usize| #[trigger] self.entries().contains_key(k) ==> k < self.next_id()
    }

    /// A table in which only the font atlas resolves.
    pub fn new() -> (r: TextureTable)
        ensures
            r.wf(),
            r.entries().dom().is_empty(),
            r.next_id() == 0,
    {
        TextureTable { textures: textures_new(), next: 0 }
    }

    /// Registers the texture held in `slot` and returns its fresh id, or
    /// `None` when the ids below the font id are used up.
    pub fn register(&mut self, slot: usize) -> (r: Option<usize>)
        requires
            old(self).wf(),
        ensures
            final(self).wf(),
            old(self).next_id() < FONT_TEXTURE_ID ==> {
                &&& r == Some(old(self).next_id() as usize)
                &&& !old(self).entries().contains_key(old(self).next_id() as usize)
                &&& final(self).entries() == old(self).entries().insert(
                    old(self).next_id() as usize,
                    slot,
                )
                &&& final(self).next_id() == old(self).next_id() + 1
            },
            old(self).next_id() >= FONT_TEXTURE_ID ==> r == None::<usize> && *final(self)
                == *old(self),
    {
        let ghost pre = self.entries();
        if self.next < FONT_TEXTURE_ID {
            let id = textures_insert(&mut self.textures, slot);
            self.next = self.next + 1;
            assert forall|k: usize| #[trigger] self.entries().contains_key(k) implies k
                < self.next_id() by {
                if k != id {
                    assert(pre.contains_key(k));
                }
            }
            Some(id)
        } else {
            None
        }
    }

    /// Looks an id up; `Err` carries an id that is neither the font id nor
    /// registered.
    pub fn lookup_texture(&self, id: usize) -> (r: Result<TextureBinding, usize>)
        ensures
            id == FONT_TEXTURE_ID ==> r == Ok::<TextureBinding, usize>(TextureBinding::Font),
            id != FONT_TEXTURE_ID && self.entries().contains_key(id) ==> r == Ok::<
                TextureBinding,
                usize,
            >(TextureBinding::Registered(self.entries()[id])),
            id != FONT_TEXTURE_ID && !self.entries().contains_key(id) ==> r == Err::<
                TextureBinding,
                usize,
            >(id),
    {
        if id == FONT_TEXTURE_ID {
            Ok(TextureBinding::Font)
        } else {
            match textures_get(&self.textures, id) {
                Some(slot) => Ok(TextureBinding::Registered(slot)),
                None => Err(id),
            }
        }
    }

    /// The texture an id binds: its registered texture, else the font atlas.
    pub fn resolve(&self, id: usize) -> (r: TextureBinding)
        ensures
            r == resolve_spec(self.entries(), id),
    {
        match self.lookup_texture(id) {
            Ok(b) => b,
            Err(_) => TextureBinding::Font,
        }
    }
}

} // verus!
