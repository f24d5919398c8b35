use vstd::prelude::*;

verus! {

/// Which texture a mesh samples: the UI library's shared font atlas, or a
/// texture that the caller registered.
#[derive(Clone, Copy, Debug, PartialEq, Eq, Structural)]
pub enum TextureId {
    Primary,
    User(u64),
}

/// Why a texture could not be resolved to a descriptor set.
#[derive(Clone, Copy, Debug, PartialEq, Eq, Structural)]
pub enum TextureError {
    /// The primary texture was drawn before it was ever uploaded.
    UnboundTexture,
    /// No user texture was ever registered under this handle.
    InvalidUserTextureId,
    /// The user texture under this handle was released.
    FreedUserTexture,
}

/// A slot of the user-texture table. Released slots stay as tombstones, so
/// that a handle is never given out twice.
pub enum UserTexture<D> {
    Live(D),
    Freed,
}

/// Maps texture identifiers to descriptor sets of type `D`, and remembers
/// which version of the primary texture was last uploaded.
pub struct TextureCache<D> {
    primary: Option<D>,
    primary_version: Option<u64>,
    user: Vec<UserTexture<D>>,
}

/// Each source byte repeated four times: a single-channel image as 4 bytes per
/// pixel.
pub open spec fn rgba_of(pixels: Seq<u8>) -> Seq<u8> {
    Seq::new(4 * pixels.len(), |i: int| pixels[i / 4])
}

/// Whether `update_primary` uploads a texture of `version`, given the version
/// that was last uploaded.
pub open spec fn needs_upload(last: Option<u64>, version: u64) -> bool {
    last != Some(version)
}

/// The expansion of single-channel pixels to the 4-byte-per-pixel format of
/// the GPU image.
pub fn expand_to_rgba(pixels: &Vec<u8>) -> (r: Vec<u8>)
    requires
        4 * pixels.len() <= usize::MAX,
    ensures
        r@ == rgba_of(pixels@),
{
    let mut out: Vec<u8> = Vec::with_capacity(4 * pixels.len());
    let mut i: usize = 0;
    while i < pixels.len()
        invariant
            i <= pixels.len(),
            out@.len() == 4 * i,
            forall|j: int| 0 <= j < 4 * i ==> #[trigger] out@[j] == pixels@[j / 4],
        decreases pixels.len() - i,
    {
        let p = pixels[i];
        out.push(p);
        out.push(p);
        out.push(p);
        out.push(p);
        i = i + 1;
    }
    assert(out@ =~= rgba_of(pixels@));
    out
}

impl<D> TextureCache<D> {
    /// A descriptor set is held exactly when a version was recorded.
    pub open spec fn wf(&self) -> bool {
        self.primary_set() is Some <==> self.version() is Some
    }

    pub closed spec fn primary_set(&self) -> Option<D> {
        self.primary
    }

    /// The version of the primary texture that was last uploaded.
    pub closed spec fn version(&self) -> Option<u64> {
        self.primary_version
    }

    pub closed spec fn user_slots(&self) -> Seq<UserTexture<D>> {
        self.user@
    }

    /// What `resolve` gives for `id`.
    pub open spec fn spec_resolve(&self, id: TextureId) -> Result<D, TextureError> {
        match id {
            TextureId::Primary => match self.primary_set() {
                Some(d) => Ok(d),
                None => Err(TextureError::UnboundTexture),
            },
            TextureId::User(h) => if h >= self.user_slots().len() {
                Err(TextureError::InvalidUserTextureId)
            } else {
                match self.user_slots()[h as int] {
                    UserTexture::Live(d) => Ok(d),
                    UserTexture::Freed => Err(TextureError::FreedUserTexture),
                }
            },
        }
    }

    /// A cache with nothing uploaded and no user texture.
    pub fn new() -> (r: Self)
        ensures
            r.wf(),
            r.primary_set() is None,
            r.version() is None,
            r.user_slots().len() == 0,
    {
        TextureCache { primary: None, primary_version: None, user: Vec::new() }
    }

    /// The version of the primary texture last uploaded.
    pub fn primary_version(&self) -> (r: Option<u64>)
        ensures
            r == self.version(),
    {
        self.primary_version
    }

    /// Number of user handles given out so far, released ones included.
    pub fn user_texture_count(&self) -> (r: usize)
        ensures
            r == self.user_slots().len(),
    {
        self.user.len()
    }

    /// The descriptor set to bind for `id`.
    pub fn resolve(&self, id: TextureId) -> (r: Result<&D, TextureError>)
        ensures
            match r {
                Ok(d) => self.spec_resolve(id) == Ok::<D, TextureError>(*d),
                Err(e) => self.spec_resolve(id) == Err::<D, TextureError>(e),
            },
    {
        match id {
            TextureId::Primary => match &self.primary {
                Some(d) => Ok(d),
                None => Err(TextureError::UnboundTexture),
            },
            TextureId::User(h) => {
                if h >= self.user.len() as u64 {
                    Err(TextureError::InvalidUserTextureId)
                } else {
                    match &self.user[h as usize] {
                        UserTexture::Live(d) => Ok(d),
                        UserTexture::Freed => Err(TextureError::FreedUserTexture),
                    }
                }
            },
        }
    }

    /// Brings the primary texture up to `version`. Where that version is the
    /// one last uploaded nothing happens and `false` is returned. Otherwise the
    /// single-channel `pixels` are expanded to 4 bytes per pixel and handed to
    /// `upload`, whose descriptor set replaces the cached one, and `version`
    /// is recorded.
    pub fn update_primary<F: FnOnce(Vec<u8>) -> D>(
        &mut self,
        version: u64,
        pixels: &Vec<u8>,
        upload: F,
    ) -> (uploaded: bool)
        requires
            old(self).wf(),
            4 * pixels.len() <= usize::MAX,
            forall|rgba: Vec<u8>| upload.requires((rgba,)),
        ensures
            final(self).wf(),
            uploaded == needs_upload(old(self).version(), version),
            final(self).version() == Some(version),
            final(self).user_slots() == old(self).user_slots(),
            !uploaded ==> final(self).primary_set() == old(self).primary_set(),
            uploaded ==> exists|rgba: Vec<u8>|
                rgba@ == rgba_of(pixels@) && #[trigger] upload.ensures(
                    (rgba,),
                    final(self).primary_set()->Some_0,
                ),
            uploaded ==> final(self).primary_set() is Some,
    {
        if self.primary_version == Some(version) {
            return false;
        }
        let rgba = expand_to_rgba(pixels);
        let ghost g = rgba;
        let set = upload(rgba);
        self.primary = Some(set);
        self.primary_version = Some(version);
        assert(g@ == rgba_of(pixels@) && upload.ensures((g,), self.primary_set()->Some_0));
        true
    }

    /// Stores an uploaded user texture under the next handle and returns it.
    pub fn register_user_texture(&mut self, set: D) -> (id: u64)
        ensures
            id == old(self).user_slots().len(),
            final(self).user_slots() == old(self).user_slots().push(UserTexture::Live(set)),
            final(self).primary_set() == old(self).primary_set(),
            final(self).version() == old(self).version(),
    {
        let id = self.user.len() as u64;
        self.user.push(UserTexture::Live(set));
        id
    }

    /// Releases the user texture under `handle`; its handle is not given out
    /// again. Fails as `resolve` would on that handle.
    pub fn release_user_texture(&mut self, handle: u64) -> (r: Result<(), TextureError>)
        ensures
            r is Ok <==> old(self).spec_resolve(TextureId::User(handle)) is Ok,
            r matches Err(e) ==> old(self).spec_resolve(TextureId::User(handle)) == Err::<D, TextureError>(e),
            r is Ok ==> final(self).user_slots() == old(self).user_slots().update(handle as int, UserTexture::Freed),
            r is Err ==> final(self).user_slots() == old(self).user_slots(),
            final(self).primary_set() == old(self).primary_set(),
            final(self).version() == old(self).version(),
    {
        if handle >= self.user.len() as u64 {
            return Err(TextureError::InvalidUserTextureId);
        }
        let i = handle as usize;
        let live = match &self.user[i] {
            UserTexture::Live(_) => true,
            UserTexture::Freed => false,
        };
        if !live {
            return Err(TextureError::FreedUserTexture);
        }
        self.user.set(i, UserTexture::Freed);
        Ok(())
    }
}

/// Once `version` is recorded (as every `update_primary` to it leaves it), a
/// second update with the same version uploads nothing, and one with a greater
/// version uploads again.
pub proof fn lemma_version_protocol(version: u64, next: u64)
    ensures
        !needs_upload(Some(version), version),
        next > version ==> needs_upload(Some(version), next),
{
}

} // verus!
