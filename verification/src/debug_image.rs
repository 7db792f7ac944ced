//! CPU-side state of the debug image viewer.
//!
//! The viewer keeps only stable string ids, a visibility switch and labels; the render
//! systems resolve the selected id to an image of the current frame. Ids are compared
//! by their text.
use vstd::prelude::*;
use crate::text::str_eq;

verus! {

/// Metadata of a debug image the user can pick. `id` is stable and unique within a
/// render system; `label` is only shown.
#[derive(Clone, Copy, Debug)]
pub struct DebugImageOption {
    pub id: &'static str,
    pub label: &'static str,
}

impl DebugImageOption {
    pub fn new(id: &'static str, label: &'static str) -> (o: Self)
        ensures
            o.id == id,
            o.label == label,
    {
        DebugImageOption { id, label }
    }
}

/// `id` names one of `options`.
pub open spec fn option_ids_contain(options: Seq<DebugImageOption>, id: &'static str) -> bool {
    exists|i: int| 0 <= i < options.len() && (#[trigger] options[i]).id@ == id@
}

/// The selection that normalization keeps or chooses for `options`.
pub open spec fn normalized_selection(
    selected: Option<&'static str>,
    options: Seq<DebugImageOption>,
) -> Option<&'static str> {
    if selected matches Some(id) && option_ids_contain(options, id) {
        selected
    } else if options.len() > 0 {
        Some(options[0].id)
    } else {
        None
    }
}

/// The renderer's debug image selection: whether the viewer is shown and which id
/// is saved. Hiding the viewer keeps the saved id but exposes none to rendering.
#[derive(Debug)]
pub struct DebugImageSelection {
    visible: bool,
    selected_id: Option<&'static str>,
}

impl Default for DebugImageSelection {
    fn default() -> (s: Self)
        ensures
            s.shown(),
            s.saved() is None,
    {
        DebugImageSelection { visible: true, selected_id: None }
    }
}

impl DebugImageSelection {
    pub closed spec fn shown(self) -> bool {
        self.visible
    }

    pub closed spec fn saved(self) -> Option<&'static str> {
        self.selected_id
    }

    /// The id that rendering should display.
    pub open spec fn displayed(self) -> Option<&'static str> {
        if self.shown() {
            self.saved()
        } else {
            None
        }
    }

    pub fn is_visible(&self) -> (b: bool)
        ensures
            b == self.shown(),
    {
        self.visible
    }

    pub fn set_visible(&mut self, visible: bool)
        ensures
            final(self).shown() == visible,
            final(self).saved() == old(self).saved(),
    {
        self.visible = visible;
    }

    /// The saved selection, whether or not the viewer is shown.
    pub fn selected_option_id(&self) -> (id: Option<&'static str>)
        ensures
            id == self.saved(),
    {
        self.selected_id
    }

    pub fn set_selected_id(&mut self, selected_id: Option<&'static str>)
        ensures
            final(self).saved() == selected_id,
            final(self).shown() == old(self).shown(),
    {
        self.selected_id = selected_id;
    }

    /// The id rendering should display: the saved one while the viewer is shown.
    pub fn selected_id(&self) -> (id: Option<&'static str>)
        ensures
            id == self.displayed(),
    {
        if self.visible {
            self.selected_id
        } else {
            None
        }
    }

    /// Keeps the saved id if it names one of `options`, and otherwise selects the
    /// first option (or nothing when there is none).
    pub fn normalize_options(&mut self, options: &[DebugImageOption])
        ensures
            final(self).saved() == normalized_selection(old(self).saved(), options@),
            final(self).shown() == old(self).shown(),
    {
        let valid = match self.selected_id {
            Some(id) => contains_option_id(options, id),
            None => false,
        };
        if !valid {
            self.selected_id = if options.len() > 0 {
                Some(options[0].id)
            } else {
                None
            };
        }
    }
}

/// Whether `id` names one of `options`.
pub fn contains_option_id(options: &[DebugImageOption], id: &'static str) -> (r: bool)
    ensures
        r == option_ids_contain(options@, id),
{
    let mut i: usize = 0;
    while i < options.len()
        invariant
            i <= options.len(),
            forall|k: int| 0 <= k < i ==> (#[trigger] options@[k]).id@ != id@,
        decreases options.len() - i,
    {
        if str_eq(options[i].id, id) {
            assert(options@[i as int].id@ == id@);
            return true;
        }
        i = i + 1;
    }
    false
}

/// After normalization the selection is empty exactly when there are no options,
/// it names one of the options, and normalizing again changes nothing.
pub proof fn lemma_normalized_selection(selected: Option<&'static str>, options: Seq<DebugImageOption>)
    ensures
        normalized_selection(selected, options) is None <==> options.len() == 0,
        normalized_selection(selected, options) matches Some(id) ==> option_ids_contain(options, id),
        normalized_selection(normalized_selection(selected, options), options) == normalized_selection(
            selected,
            options,
        ),
{
    if options.len() > 0 {
        assert(options[0].id@ == options[0].id@);
        assert(option_ids_contain(options, options[0].id));
    }
}

/// Hiding the viewer exposes no image and keeps the saved id, so showing it again
/// displays the same id as before.
pub proof fn lemma_hide_show_keeps_selection(s: DebugImageSelection, hidden: DebugImageSelection, shown: DebugImageSelection)
    requires
        hidden.shown() == false,
        hidden.saved() == s.saved(),
        shown.shown() == true,
        shown.saved() == hidden.saved(),
    ensures
        hidden.displayed() is None,
        shown.displayed() == s.saved(),
{
}

// ---------------------------------------------------------------------------
// Registry of this frame's debug images
// ---------------------------------------------------------------------------

/// How a debug image is shown.
#[derive(Clone, Copy, Debug, PartialEq, Eq, Structural)]
pub enum DebugImageVisualizeMode {
    Raw,
}

/// Texture id of the font atlas; debug images get the ids after it.
pub const FONT_TEXTURE_ID: usize = 0;

pub const DEBUG_TEXTURE_ID_BASE: usize = 1;

/// A registered debug image: its id, label, and what the GPU side needs to show it.
pub struct DebugImageRecord<P> {
    pub id: &'static str,
    pub label: &'static str,
    pub payload: P,
}

/// The debug images registered this frame, the selected one, and the viewer
/// texture id assigned to each id ever registered.
pub struct DebugImageRegistry<P> {
    images: Vec<DebugImageRecord<P>>,
    /// Texture id of each id ever registered, as pairs with distinct keys. A vector
    /// stands here for a map keyed by the id because vstd gives std's hash maps a
    /// key model for integer and `bool` keys only, not for `&str`.
    texture_ids: Vec<(&'static str, usize)>,
    selected: Option<&'static str>,
    next_texture_id: usize,
}

pub open spec fn ids_of<P>(images: Seq<DebugImageRecord<P>>) -> Seq<Seq<char>> {
    images.map_values(|r: DebugImageRecord<P>| r.id@)
}

/// The predicate "is not `x`".
pub open spec fn other_than(x: Seq<char>) -> spec_fn(Seq<char>) -> bool {
    |y: Seq<char>| y != x
}

/// The predicate "is a record whose id is not `x`".
pub open spec fn record_other_than<P>(x: Seq<char>) -> spec_fn(DebugImageRecord<P>) -> bool {
    |r: DebugImageRecord<P>| r.id@ != x
}

/// `id` is assigned the viewer texture `tex` in `t`.
pub open spec fn has_texture(t: Seq<(&'static str, usize)>, id: Seq<char>, tex: usize) -> bool {
    exists|j: int| 0 <= j < t.len() && (#[trigger] t[j]).0@ == id && t[j].1 == tex
}

pub open spec fn texture_keys(t: Seq<(&'static str, usize)>) -> Seq<Seq<char>> {
    t.map_values(|e: (&'static str, usize)| e.0@)
}

impl<P> DebugImageRegistry<P> {
    pub closed spec fn entries(self) -> Seq<DebugImageRecord<P>> {
        self.images@
    }

    pub closed spec fn textures(self) -> Seq<(&'static str, usize)> {
        self.texture_ids@
    }

    pub closed spec fn selection(self) -> Option<&'static str> {
        self.selected
    }

    pub closed spec fn next_texture(self) -> usize {
        self.next_texture_id
    }

    /// Ids registered this frame are distinct; texture ids are assigned once per id,
    /// are distinct, lie after the font texture and below the next one to hand out.
    pub closed spec fn wf(self) -> bool {
        &&& ids_of(self.images@).no_duplicates()
        &&& texture_keys(self.texture_ids@).no_duplicates()
        &&& DEBUG_TEXTURE_ID_BASE <= self.next_texture_id
        &&& forall|i: int|
            0 <= i < self.texture_ids@.len() ==> DEBUG_TEXTURE_ID_BASE <= (
            #[trigger] self.texture_ids@[i]).1 < self.next_texture_id
        &&& forall|i: int, j: int|
            0 <= i < j < self.texture_ids@.len() ==> (#[trigger] self.texture_ids@[i]).1 != (
            #[trigger] self.texture_ids@[j]).1
        &&& forall|i: int|
            0 <= i < self.images@.len() ==> texture_keys(self.texture_ids@).contains(
                (#[trigger] self.images@[i]).id@,
            )
    }

    pub fn new() -> (r: Self)
        ensures
            r.wf(),
            r.entries().len() == 0,
            r.textures().len() == 0,
            r.selection() is None,
    {
        let r = DebugImageRegistry {
            images: Vec::new(),
            texture_ids: Vec::new(),
            selected: None,
            next_texture_id: DEBUG_TEXTURE_ID_BASE,
        };
        assert(ids_of(r.images@) =~= Seq::<Seq<char>>::empty());
        assert(texture_keys(r.texture_ids@) =~= Seq::<Seq<char>>::empty());
        r
    }

    /// Forgets this frame's images; selection and texture ids are kept.
    pub fn begin_frame(&mut self)
        requires
            old(self).wf(),
        ensures
            final(self).wf(),
            final(self).entries().len() == 0,
            final(self).textures() == old(self).textures(),
            final(self).selection() == old(self).selection(),
    {
        self.images.clear();
        assert(ids_of(self.images@) =~= Seq::<Seq<char>>::empty());
    }

    /// Index of the image registered under `id`.
    fn find_image(&self, id: &'static str) -> (r: Option<usize>)
        ensures
            r matches Some(i) ==> i < self.images@.len() && self.images@[i as int].id@ == id@,
            r is None ==> !ids_of(self.images@).contains(id@),
    {
        let mut i: usize = 0;
        while i < self.images.len()
            invariant
                i <= self.images@.len(),
                forall|k: int| 0 <= k < i ==> (#[trigger] self.images@[k]).id@ != id@,
            decreases self.images.len() - i,
        {
            if str_eq(self.images[i].id, id) {
                return Some(i);
            }
            i = i + 1;
        }
        proof {
            if ids_of(self.images@).contains(id@) {
                let k = choose|k: int| 0 <= k < ids_of(self.images@).len() && ids_of(self.images@)[k] == id@;
                assert(self.images@[k].id@ == id@);
            }
        }
        None
    }

    /// Index of the texture id assigned to `id`.
    fn find_texture(&self, id: &'static str) -> (r: Option<usize>)
        ensures
            r matches Some(i) ==> i < self.texture_ids@.len() && self.texture_ids@[i as int].0@ == id@,
            r is None ==> !texture_keys(self.texture_ids@).contains(id@),
    {
        let mut i: usize = 0;
        while i < self.texture_ids.len()
            invariant
                i <= self.texture_ids@.len(),
                forall|k: int| 0 <= k < i ==> (#[trigger] self.texture_ids@[k]).0@ != id@,
            decreases self.texture_ids.len() - i,
        {
            if str_eq(self.texture_ids[i].0, id) {
                return Some(i);
            }
            i = i + 1;
        }
        proof {
            if texture_keys(self.texture_ids@).contains(id@) {
                let k = choose|k: int|
                    0 <= k < texture_keys(self.texture_ids@).len() && texture_keys(self.texture_ids@)[k]
                        == id@;
                assert(self.texture_ids@[k].0@ == id@);
            }
        }
        None
    }

    /// The viewer texture id of `id`, assigning the next free one on first use.
    pub fn debug_texture_id(&mut self, id: &'static str) -> (t: usize)
        requires
            old(self).wf(),
            old(self).next_texture() < usize::MAX,
        ensures
            final(self).wf(),
            final(self).entries() == old(self).entries(),
            final(self).selection() == old(self).selection(),
            texture_keys(final(self).textures()).contains(id@),
            texture_keys(old(self).textures()).contains(id@) ==> final(self).textures() == old(
                self,
            ).textures() && final(self).next_texture() == old(self).next_texture(),
            !texture_keys(old(self).textures()).contains(id@) ==> final(self).textures() == old(
                self,
            ).textures().push((id, old(self).next_texture())) && t == old(self).next_texture()
                && final(self).next_texture() == old(self).next_texture() + 1,
            texture_keys(old(self).textures()).contains(id@) ==> exists|i: int|
                0 <= i < old(self).textures().len() && (#[trigger] old(self).textures()[i]).0@ == id@
                    && old(self).textures()[i].1 == t,
            t != FONT_TEXTURE_ID,
    {
        match self.find_texture(id) {
            Some(i) => {
                let t = self.texture_ids[i].1;
                assert(DEBUG_TEXTURE_ID_BASE <= self.texture_ids@[i as int].1);
                assert(texture_keys(self.texture_ids@)[i as int] == id@);
                t
            },
            None => {
                let t = self.next_texture_id;
                let ghost old_ids = self.texture_ids@;
                self.texture_ids.push((id, t));
                self.next_texture_id = t + 1;
                proof {
                    assert(texture_keys(self.texture_ids@) =~= texture_keys(old_ids).push(id@));
                    assert(texture_keys(self.texture_ids@).last() == id@);
                    assert forall|i: int|
                        0 <= i < self.images@.len() implies texture_keys(self.texture_ids@).contains(
                        (#[trigger] self.images@[i]).id@,
                    ) by {
                        let k = choose|k: int|
                            0 <= k < texture_keys(old_ids).len() && texture_keys(old_ids)[k]
                                == self.images@[i].id@;
                        assert(texture_keys(self.texture_ids@)[k] == self.images@[i].id@);
                    }
                }
                t
            },
        }
    }

    /// Registers an image for this frame. A null image or view is skipped (returns
    /// `false`); an image with an already registered id replaces the old one; the
    /// first registered image becomes selected if nothing is.
    pub fn register(&mut self, id: &'static str, label: &'static str, is_null: bool, payload: P) -> (registered: bool)
        requires
            old(self).wf(),
            old(self).next_texture() < usize::MAX,
        ensures
            final(self).wf(),
            registered == !is_null,
            is_null ==> final(self).entries() == old(self).entries() && final(self).textures()
                == old(self).textures() && final(self).selection() == old(self).selection(),
            !is_null ==> final(self).entries().len() > 0 && final(self).entries().last().id == id
                && final(self).entries().last().label == label,
            !is_null ==> final(self).selection() == if old(self).selection() is None {
                Some(id)
            } else {
                old(self).selection()
            },
            !is_null ==> ids_of(final(self).entries()) == ids_of(old(self).entries()).filter(
                other_than(id@),
            ).push(id@),
            !is_null ==> final(self).entries() == old(self).entries().filter(record_other_than(id@)).push(
                (DebugImageRecord { id, label, payload }),
            ),
            !is_null ==> texture_keys(final(self).textures()).contains(id@),
            !is_null ==> final(self).textures() == if texture_keys(old(self).textures()).contains(id@) {
                old(self).textures()
            } else {
                old(self).textures().push((id, old(self).next_texture()))
            },
    {
        if is_null {
            return false;
        }
        self.debug_texture_id(id);
        let ghost before = self.images@;
        match self.find_image(id) {
            Some(i) => {
                self.images.remove(i);
                proof {
                    lemma_remove_unique_id(before, i as int, id@);
                    assert forall|k: int| 0 <= k < before.len() && k != i implies (record_other_than::<P>(
                        id@,
                    ))(#[trigger] before[k]) by {
                        assert(ids_of(before)[k] == before[k].id@);
                        assert(ids_of(before)[i as int] == id@);
                    }
                    lemma_filter_drops_one(before, i as int, record_other_than::<P>(id@));
                }
            },
            None => {
                proof {
                    lemma_filter_absent(ids_of(before), id@);
                    assert forall|k: int| 0 <= k < before.len() implies (record_other_than::<P>(id@))(
                        #[trigger] before[k],
                    ) by {
                        assert(ids_of(before)[k] == before[k].id@);
                        if before[k].id@ == id@ {
                            assert(ids_of(before).contains(id@));
                        }
                    }
                    lemma_filter_keeps_all(before, record_other_than::<P>(id@));
                }
            },
        }
        if self.selected.is_none() {
            self.selected = Some(id);
        }
        let ghost mid = self.images@;
        self.images.push(DebugImageRecord { id, label, payload });
        proof {
            assert(ids_of(self.images@) =~= ids_of(mid).push(id@));
            lemma_filter_no_dup_push(ids_of(before), id@);
            assert forall|k: int|
                0 <= k < self.images@.len() implies texture_keys(self.texture_ids@).contains(
                (#[trigger] self.images@[k]).id@,
            ) by {
                if k < mid.len() {
                    assert(ids_of(mid).contains(self.images@[k].id@)) by {
                        assert(ids_of(mid)[k] == self.images@[k].id@);
                    }
                    ids_of(before).lemma_filter_contains_rev(other_than(id@), self.images@[k].id@);
                    assert(ids_of(before).contains(self.images@[k].id@));
                    let j = choose|j: int| 0 <= j < ids_of(before).len() && ids_of(before)[j] == self.images@[k].id@;
                    assert(before[j].id@ == self.images@[k].id@);
                }
            }
        }
        true
    }

    /// Keeps the selection if it names a registered image, else selects the first
    /// registered image (or nothing).
    pub fn ensure_selected(&mut self)
        requires
            old(self).wf(),
        ensures
            final(self).wf(),
            final(self).entries() == old(self).entries(),
            final(self).textures() == old(self).textures(),
            final(self).selection() == if old(self).selection() matches Some(id) && ids_of(
                old(self).entries(),
            ).contains(id@) {
                old(self).selection()
            } else if old(self).entries().len() > 0 {
                Some(old(self).entries()[0].id)
            } else {
                None
            },
    {
        let valid = match self.selected {
            Some(id) => {
                let found = self.find_image(id);
                proof {
                    if let Some(i) = found {
                        assert(ids_of(self.images@)[i as int] == id@);
                    }
                }
                found.is_some()
            },
            None => false,
        };
        if !valid {
            self.selected = if self.images.len() > 0 {
                Some(self.images[0].id)
            } else {
                None
            };
        }
    }

    /// The index of the selected image, after normalizing the selection.
    pub fn selected_entry(&mut self) -> (r: Option<usize>)
        requires
            old(self).wf(),
        ensures
            final(self).wf(),
            final(self).entries() == old(self).entries(),
            final(self).textures() == old(self).textures(),
            final(self).selection() == if old(self).selection() matches Some(id) && ids_of(
                old(self).entries(),
            ).contains(id@) {
                old(self).selection()
            } else if old(self).entries().len() > 0 {
                Some(old(self).entries()[0].id)
            } else {
                None
            },
            r matches Some(i) ==> (i < final(self).entries().len() && final(self).selection() is Some
                && final(self).entries()[i as int].id@ == final(self).selection()->0@),
            r is None <==> final(self).entries().len() == 0,
    {
        self.ensure_selected();
        match self.selected {
            Some(id) => {
                let r = self.find_image(id);
                proof {
                    if r is None {
                        if self.images@.len() > 0 {
                            assert(ids_of(self.images@)[0] == self.images@[0].id@);
                        }
                    }
                }
                r
            },
            None => None,
        }
    }

    /// The viewer texture of each image registered this frame, in registration
    /// order: the pair of the texture id assigned to the image's id and the index
    /// of its entry. The font atlas keeps `FONT_TEXTURE_ID`, which no pair uses.
    pub fn texture_bindings(&self) -> (v: Vec<(usize, usize)>)
        requires
            self.wf(),
        ensures
            v@.len() == self.entries().len(),
            forall|i: int| 0 <= i < v@.len() ==> (#[trigger] v@[i]).1 == i,
            forall|i: int|
                0 <= i < v@.len() ==> has_texture(self.textures(), self.entries()[i].id@, (#[trigger] v@[i]).0),
            forall|i: int| 0 <= i < v@.len() ==> (#[trigger] v@[i]).0 != FONT_TEXTURE_ID,
    {
        let mut v: Vec<(usize, usize)> = Vec::new();
        let mut i: usize = 0;
        while i < self.images.len()
            invariant
                self.wf(),
                i <= self.images@.len(),
                v@.len() == i,
                forall|k: int| 0 <= k < i ==> (#[trigger] v@[k]).1 == k,
                forall|k: int|
                    0 <= k < i ==> has_texture(self.texture_ids@, self.images@[k].id@, (#[trigger] v@[k]).0),
                forall|k: int| 0 <= k < i ==> (#[trigger] v@[k]).0 != FONT_TEXTURE_ID,
            decreases self.images.len() - i,
        {
            let id = self.images[i].id;
            assert(texture_keys(self.texture_ids@).contains(self.images@[i as int].id@));
            match self.find_texture(id) {
                Some(j) => {
                    let t = self.texture_ids[j].1;
                    assert(DEBUG_TEXTURE_ID_BASE <= self.texture_ids@[j as int].1);
                    v.push((t, i));
                    assert(has_texture(self.texture_ids@, self.images@[i as int].id@, t));
                },
                None => {},
            }
            i = i + 1;
        }
        v
    }

    /// The selected id, without normalizing it.
    pub fn selected_id(&self) -> (id: Option<&'static str>)
        ensures
            id == self.selection(),
    {
        self.selected
    }

    pub fn len(&self) -> (n: usize)
        ensures
            n == self.entries().len(),
    {
        self.images.len()
    }

    pub fn entry(&self, i: usize) -> (r: &DebugImageRecord<P>)
        requires
            i < self.entries().len(),
        ensures
            *r == self.entries()[i as int],
    {
        &self.images[i]
    }

    /// Forgets every image, texture id and the selection (shutdown).
    pub fn clear(&mut self)
        requires
            old(self).wf(),
        ensures
            final(self).wf(),
            final(self).entries().len() == 0,
            final(self).textures().len() == 0,
            final(self).selection() is None,
    {
        self.images.clear();
        self.texture_ids.clear();
        self.selected = None;
        assert(ids_of(self.images@) =~= Seq::<Seq<char>>::empty());
        assert(texture_keys(self.texture_ids@) =~= Seq::<Seq<char>>::empty());
    }
}

/// Where the GUI pass takes the selected debug image from.
#[derive(Clone, Copy, Debug, PartialEq, Eq, Structural)]
pub enum DebugImageSource {
    /// The present graph already imported it, at this index of the imported list.
    AlreadyImported(usize),
    /// It must be imported from the registry entry at this index.
    Registry(usize),
}

/// The source of the selected image: an image the present graph already imported
/// under the same id is reused; otherwise the registry entry is imported.
pub fn selected_debug_source<P>(
    registry: &DebugImageRegistry<P>,
    imported_ids: &[&'static str],
) -> (r: Option<DebugImageSource>)
    requires
        registry.wf(),
    ensures
        registry.selection() is None ==> r is None,
        r matches Some(DebugImageSource::AlreadyImported(i)) ==> (registry.selection() is Some && i
            < imported_ids@.len() && imported_ids@[i as int]@ == registry.selection()->0@
            && forall|k: int| 0 <= k < i ==> (#[trigger] imported_ids@[k])@ != registry.selection()->0@),
        r matches Some(DebugImageSource::Registry(i)) ==> (registry.selection() is Some && i
            < registry.entries().len() && registry.entries()[i as int].id@ == registry.selection()->0@
            && forall|k: int|
            0 <= k < imported_ids@.len() ==> (#[trigger] imported_ids@[k])@ != registry.selection()->0@),
        (r is None && registry.selection() is Some) ==> (!ids_of(registry.entries()).contains(
            registry.selection()->0@,
        ) && forall|k: int|
            0 <= k < imported_ids@.len() ==> (#[trigger] imported_ids@[k])@ != registry.selection()->0@),
{
    let id = match registry.selected_id() {
        Some(id) => id,
        None => return None,
    };
    let mut k: usize = 0;
    while k < imported_ids.len()
        invariant
            k <= imported_ids@.len(),
            registry.selection() == Some(id),
            registry.wf(),
            forall|j: int| 0 <= j < k ==> (#[trigger] imported_ids@[j])@ != id@,
        decreases imported_ids.len() - k,
    {
        if str_eq(imported_ids[k], id) {
            return Some(DebugImageSource::AlreadyImported(k));
        }
        k = k + 1;
    }
    match registry.find_image(id) {
        Some(i) => Some(DebugImageSource::Registry(i)),
        None => None,
    }
}

// ---------------------------------------------------------------------------
// Sequence lemmas
// ---------------------------------------------------------------------------

/// In a well-formed registry every id has at most one viewer texture id, the
/// texture ids are pairwise distinct, and none of them is the font atlas's.
pub proof fn lemma_texture_ids_distinct<P>(r: DebugImageRegistry<P>)
    requires
        r.wf(),
    ensures
        texture_keys(r.textures()).no_duplicates(),
        forall|i: int, j: int|
            0 <= i < j < r.textures().len() ==> (#[trigger] r.textures()[i]).1 != (#[trigger] r.textures()[j]).1,
        forall|i: int| 0 <= i < r.textures().len() ==> (#[trigger] r.textures()[i]).1 != FONT_TEXTURE_ID,
        forall|i: int| 0 <= i < r.textures().len() ==> (#[trigger] r.textures()[i]).1 < r.next_texture(),
        forall|id: Seq<char>, a: usize, b: usize|
            has_texture(r.textures(), id, a) && has_texture(r.textures(), id, b) ==> a == b,
{
    assert forall|id: Seq<char>, a: usize, b: usize|
        has_texture(r.textures(), id, a) && has_texture(r.textures(), id, b) implies a == b by {
        let t = r.textures();
        let ja = choose|j: int| 0 <= j < t.len() && (#[trigger] t[j]).0@ == id && t[j].1 == a;
        let jb = choose|j: int| 0 <= j < t.len() && (#[trigger] t[j]).0@ == id && t[j].1 == b;
        assert(texture_keys(t)[ja] == id && texture_keys(t)[jb] == id);
    }
}

proof fn lemma_filter_keeps_all<A>(s: Seq<A>, f: spec_fn(A) -> bool)
    requires
        forall|k: int| 0 <= k < s.len() ==> f(#[trigger] s[k]),
    ensures
        s.filter(f) == s,
    decreases s.len(),
{
    reveal(Seq::filter);
    if s.len() > 0 {
        let d = s.drop_last();
        assert forall|k: int| 0 <= k < d.len() implies f(#[trigger] d[k]) by {
            assert(d[k] == s[k]);
        }
        lemma_filter_keeps_all(d, f);
        assert(f(s[s.len() - 1]));
        assert(d.push(s.last()) =~= s);
    } else {
        assert(s.filter(f) =~= s);
    }
}

proof fn lemma_filter_drops_one<A>(s: Seq<A>, i: int, f: spec_fn(A) -> bool)
    requires
        0 <= i < s.len(),
        !f(s[i]),
        forall|k: int| 0 <= k < s.len() && k != i ==> f(#[trigger] s[k]),
    ensures
        s.remove(i) == s.filter(f),
    decreases s.len(),
{
    reveal(Seq::filter);
    let d = s.drop_last();
    if i == s.len() - 1 {
        assert forall|k: int| 0 <= k < d.len() implies f(#[trigger] d[k]) by {
            assert(d[k] == s[k]);
        }
        lemma_filter_keeps_all(d, f);
        assert(s.remove(i) =~= d);
    } else {
        assert forall|k: int| 0 <= k < d.len() && k != i implies f(#[trigger] d[k]) by {
            assert(d[k] == s[k]);
        }
        assert(d[i] == s[i]);
        lemma_filter_drops_one(d, i, f);
        assert(f(s[s.len() - 1]));
        assert(s.remove(i) =~= d.remove(i).push(s.last()));
    }
}

proof fn lemma_filter_absent(s: Seq<Seq<char>>, x: Seq<char>)
    requires
        !s.contains(x),
    ensures
        s.filter(other_than(x)) == s,
    decreases s.len(),
{
    reveal(Seq::filter);
    if s.len() > 0 {
        assert(!s.drop_last().contains(x)) by {
            if s.drop_last().contains(x) {
                let k = choose|k: int| 0 <= k < s.drop_last().len() && s.drop_last()[k] == x;
                assert(s[k] == x);
            }
        }
        lemma_filter_absent(s.drop_last(), x);
        assert(s.last() != x) by {
            assert(s[s.len() - 1] == s.last());
        }
        assert(s.drop_last().push(s.last()) =~= s);
    } else {
        assert(s.filter(other_than(x)) =~= s);
    }
}

proof fn lemma_remove_unique_id<P>(images: Seq<DebugImageRecord<P>>, i: int, x: Seq<char>)
    requires
        0 <= i < images.len(),
        images[i].id@ == x,
        ids_of(images).no_duplicates(),
    ensures
        ids_of(images.remove(i)) == ids_of(images).filter(other_than(x)),
        ids_of(images.remove(i)).no_duplicates(),
        !ids_of(images.remove(i)).contains(x),
{
    let ids = ids_of(images);
    let r = images.remove(i);
    assert(ids_of(r) =~= ids.remove(i));
    assert(!ids.remove(i).contains(x)) by {
        if ids.remove(i).contains(x) {
            let k = choose|k: int| 0 <= k < ids.remove(i).len() && ids.remove(i)[k] == x;
            if k < i {
                assert(ids[k] == x && ids[i] == x);
            } else {
                assert(ids[k + 1] == x && ids[i] == x);
            }
        }
    }
    lemma_filter_removes_unique(ids, i, x);
    assert forall|a: int, b: int| 0 <= a < b < ids.remove(i).len() implies ids.remove(i)[a] != ids.remove(i)[b] by {
        let a2 = if a < i { a } else { a + 1 };
        let b2 = if b < i { b } else { b + 1 };
        assert(ids.remove(i)[a] == ids[a2]);
        assert(ids.remove(i)[b] == ids[b2]);
    }
}

proof fn lemma_filter_removes_unique(ids: Seq<Seq<char>>, i: int, x: Seq<char>)
    requires
        0 <= i < ids.len(),
        ids[i] == x,
        ids.no_duplicates(),
    ensures
        ids.remove(i) == ids.filter(other_than(x)),
    decreases ids.len(),
{
    reveal(Seq::filter);
    let last = ids.len() - 1;
    if i == last {
        assert(!ids.drop_last().contains(x)) by {
            if ids.drop_last().contains(x) {
                let k = choose|k: int| 0 <= k < ids.drop_last().len() && ids.drop_last()[k] == x;
                assert(ids[k] == x);
            }
        }
        lemma_filter_absent(ids.drop_last(), x);
        assert(ids.remove(i) =~= ids.drop_last());
    } else {
        let d = ids.drop_last();
        assert(d[i] == x);
        assert(d.no_duplicates());
        lemma_filter_removes_unique(d, i, x);
        assert(ids.last() != x) by {
            assert(ids[last] != ids[i]);
        }
        assert(ids.remove(i) =~= d.remove(i).push(ids.last()));
    }
}

proof fn lemma_filter_no_dup_push(s: Seq<Seq<char>>, x: Seq<char>)
    requires
        s.no_duplicates(),
    ensures
        s.filter(other_than(x)).push(x).no_duplicates(),
{
    let f = s.filter(other_than(x));
    assert(!f.contains(x)) by {
        if f.contains(x) {
            let k = choose|k: int| 0 <= k < f.len() && f[k] == x;
            s.lemma_filter_pred(other_than(x), k);
        }
    }
    lemma_filter_no_dup(s, x);
    let p = f.push(x);
    assert forall|a: int, b: int| 0 <= a < b < p.len() implies p[a] != p[b] by {
        if b == p.len() - 1 {
            assert(p[b] == x);
            assert(p[a] == f[a]);
        } else {
            assert(p[a] == f[a] && p[b] == f[b]);
        }
    }
}

proof fn lemma_filter_no_dup(s: Seq<Seq<char>>, x: Seq<char>)
    requires
        s.no_duplicates(),
    ensures
        s.filter(other_than(x)).no_duplicates(),
    decreases s.len(),
{
    reveal(Seq::filter);
    if s.len() > 0 {
        let d = s.drop_last();
        lemma_filter_no_dup(d, x);
        let fd = d.filter(other_than(x));
        if s.last() != x {
            assert(!fd.contains(s.last())) by {
                if fd.contains(s.last()) {
                    d.lemma_filter_contains_rev(other_than(x), s.last());
                    let j = choose|j: int| 0 <= j < d.len() && d[j] == s.last();
                    assert(s[j] == s[s.len() - 1]);
                }
            }
            let p = fd.push(s.last());
            assert forall|a: int, b: int| 0 <= a < b < p.len() implies p[a] != p[b] by {
                if b == p.len() - 1 {
                    assert(p[a] == fd[a]);
                } else {
                    assert(p[a] == fd[a] && p[b] == fd[b]);
                }
            }
        }
    }
}

} // verus!
