//! The set of panels, keyed by id, fixed after startup.

use vstd::prelude::*;
use crate::panel::{fresh_panel, Panel, PanelView};

verus! {

/// Whether some panel of `s` has the id.
pub open spec fn has_id(s: Seq<PanelView>, id: Seq<char>) -> bool {
    exists|i: int| 0 <= i < s.len() && (#[trigger] s[i]).id == id
}

/// No id occurs twice.
pub open spec fn distinct_ids(s: Seq<PanelView>) -> bool {
    forall|i: int, j: int| 0 <= i < j < s.len() ==> (#[trigger] s[i]).id != (#[trigger] s[j]).id
}

/// The panels after registering `id`: unchanged when the id is taken, else
/// with a fresh hidden panel at the end.
pub open spec fn registered(s: Seq<PanelView>, id: Seq<char>, content: Seq<char>) -> Seq<
    PanelView,
> {
    if has_id(s, id) {
        s
    } else {
        s.push(fresh_panel(id, content))
    }
}

/// The panels with the visibility of the one called `id` set, the others
/// untouched.
pub open spec fn with_visibility(s: Seq<PanelView>, id: Seq<char>, visible: bool) -> Seq<
    PanelView,
> {
    Seq::new(
        s.len(),
        |i: int|
            if s[i].id == id {
                PanelView { visible, ..s[i] }
            } else {
                s[i]
            },
    )
}

/// A startup manifest as a mathematical value: pairs of id and content.
pub open spec fn manifest_view(manifest: Seq<(&str, &str)>) -> Seq<(Seq<char>, Seq<char>)> {
    manifest.map_values(|entry: (&str, &str)| (entry.0@, entry.1@))
}

/// The panels after registering every entry of a manifest, first to last.
pub open spec fn registered_all(s: Seq<PanelView>, manifest: Seq<(Seq<char>, Seq<char>)>) -> Seq<
    PanelView,
>
    decreases manifest.len(),
{
    if manifest.len() == 0 {
        s
    } else {
        registered(
            registered_all(s, manifest.drop_last()),
            manifest.last().0,
            manifest.last().1,
        )
    }
}

/// The visible panels, in registration order.
pub open spec fn visible_panels(s: Seq<PanelView>) -> Seq<PanelView> {
    s.filter(|p: PanelView| p.visible)
}

/// The views of a vector of panels.
pub open spec fn panel_views(v: Seq<Panel>) -> Seq<PanelView> {
    v.map_values(|p: Panel| p@)
}

/// The registry of panels. Panels are added during startup and never
/// removed; afterwards only their visibility changes.
#[derive(Debug)]
pub struct Registry {
    panels: Vec<Panel>,
}

impl View for Registry {
    type V = Seq<PanelView>;

    closed spec fn view(&self) -> Seq<PanelView> {
        panel_views(self.panels@)
    }
}

impl Registry {
    /// What holds of every registry: no id occurs twice.
    #[verifier::type_invariant]
    pub open spec fn well_formed(&self) -> bool {
        distinct_ids(self@)
    }

    /// An empty registry.
    pub fn new() -> (registry: Registry)
        ensures
            registry@ == Seq::<PanelView>::empty(),
    {
        let registry = Registry { panels: Vec::new() };
        assert(registry@ =~= Seq::<PanelView>::empty());
        registry
    }

    /// The place of the panel called `id`, if there is one.
    fn position(&self, id: &str) -> (found: Option<usize>)
        ensures
            match found {
                Some(i) => i < self@.len() && self@[i as int].id == id@,
                None => !has_id(self@, id@),
            },
    {
        let key = id.to_owned();
        let mut i: usize = 0;
        while i < self.panels.len()
            invariant
                i <= self.panels.len(),
                key@ == id@,
                forall|j: int| 0 <= j < i ==> (#[trigger] self@[j]).id != id@,
            decreases self.panels.len() - i,
        {
            if *self.panels[i].id() == key {
                return Some(i);
            }
            i += 1;
        }
        None
    }

    /// Adds a hidden panel under `id`. Where the id is taken the registry
    /// stays as it is, so the first registration wins; the result says
    /// whether the panel was added.
    pub fn register(&mut self, id: &str, content: String) -> (added: bool)
        ensures
            final(self)@ == registered(old(self)@, id@, content@),
            added == !has_id(old(self)@, id@),
            distinct_ids(final(self)@),
    {
        proof {
            use_type_invariant(&*self);
        }
        match self.position(id) {
            Some(_) => false,
            None => {
                let mut panels = Vec::new();
                std::mem::swap(&mut panels, &mut self.panels);
                panels.push(Panel::new(id, content));
                assert(panel_views(panels@) =~= old(self)@.push(fresh_panel(id@, content@)));
                self.panels = panels;
                true
            },
        }
    }

    /// Registers every entry of a manifest, first to last. Of two entries
    /// with one id the first wins. The result is the number of panels
    /// added, so that a caller can tell whether entries were passed over.
    pub fn register_all(&mut self, manifest: &[(&str, &str)]) -> (added: usize)
        ensures
            final(self)@ == registered_all(old(self)@, manifest_view(manifest@)),
            final(self)@.len() == old(self)@.len() + added,
            added <= manifest@.len(),
            distinct_ids(final(self)@),
    {
        let ghost entries = manifest_view(manifest@);
        let mut added: usize = 0;
        let mut i: usize = 0;
        proof {
            use_type_invariant(&*self);
            assert(entries.take(0) =~= Seq::<(Seq<char>, Seq<char>)>::empty());
        }
        while i < manifest.len()
            invariant
                i <= manifest.len(),
                added <= i,
                entries == manifest_view(manifest@),
                self@ == registered_all(old(self)@, entries.take(i as int)),
                self@.len() == old(self)@.len() + added,
                distinct_ids(self@),
            decreases manifest.len() - i,
        {
            let (id, content) = manifest[i];
            proof {
                let next = entries.take(i + 1);
                assert(next.drop_last() =~= entries.take(i as int));
                assert(next.last() == (id@, content@));
            }
            if self.register(id, content.to_owned()) {
                added += 1;
            }
            i += 1;
        }
        assert(entries.take(i as int) =~= entries);
        added
    }

    /// Sets the visibility of the panel called `id`; a no-op where no panel
    /// has that id. The result says whether one had.
    fn set_visibility(&mut self, id: &str, visible: bool) -> (found: bool)
        ensures
            final(self)@ == with_visibility(old(self)@, id@, visible),
            found == has_id(old(self)@, id@),
            distinct_ids(final(self)@),
    {
        proof {
            use_type_invariant(&*self);
        }
        match self.position(id) {
            Some(i) => {
                let mut panels = Vec::new();
                std::mem::swap(&mut panels, &mut self.panels);
                panels[i].set_visible(visible);
                assert(panel_views(panels@) =~= with_visibility(old(self)@, id@, visible));
                self.panels = panels;
                true
            },
            None => {
                assert(self@ =~= with_visibility(old(self)@, id@, visible));
                false
            },
        }
    }

    /// Marks the panel called `id` as visible. An id that was never
    /// registered changes nothing and is reported by the result `false`.
    pub fn request_show(&mut self, id: &str) -> (found: bool)
        ensures
            final(self)@ == with_visibility(old(self)@, id@, true),
            found == has_id(old(self)@, id@),
            distinct_ids(final(self)@),
    {
        self.set_visibility(id, true)
    }

    /// Hides the panel called `id`; it stays registered. An id that was
    /// never registered changes nothing and is reported by the result `false`.
    pub fn close(&mut self, id: &str) -> (found: bool)
        ensures
            final(self)@ == with_visibility(old(self)@, id@, false),
            found == has_id(old(self)@, id@),
            distinct_ids(final(self)@),
    {
        self.set_visibility(id, false)
    }

    /// The number of registered panels.
    pub fn len(&self) -> (n: usize)
        ensures
            n == self@.len(),
            distinct_ids(self@),
    {
        proof {
            use_type_invariant(self);
        }
        self.panels.len()
    }

    /// Whether a panel is registered under `id`.
    pub fn contains(&self, id: &str) -> (found: bool)
        ensures
            found == has_id(self@, id@),
    {
        self.position(id).is_some()
    }

    /// The panel registered under `id`, if any.
    pub fn get(&self, id: &str) -> (panel: Option<&Panel>)
        ensures
            match panel {
                Some(p) => exists|i: int| 0 <= i < self@.len() && self@[i] == p@ && p@.id == id@,
                None => !has_id(self@, id@),
            },
    {
        match self.position(id) {
            Some(i) => Some(&self.panels[i]),
            None => None,
        }
    }

    /// All panels, in registration order.
    pub fn panels(&self) -> (all: &Vec<Panel>)
        ensures
            panel_views(all@) == self@,
    {
        &self.panels
    }

    /// The panels that are visible now, each once, in registration order.
    /// Reading them changes nothing in the registry.
    pub fn iterate_visible(&self) -> (shown: Vec<&Panel>)
        ensures
            shown@.map_values(|p: &Panel| p@) == visible_panels(self@),
    {
        let mut shown: Vec<&Panel> = Vec::new();
        let mut i: usize = 0;
        proof {
            reveal(Seq::filter);
            assert(self@.take(0) =~= Seq::<PanelView>::empty());
        }
        while i < self.panels.len()
            invariant
                i <= self.panels.len(),
                shown@.map_values(|p: &Panel| p@) == visible_panels(self@.take(i as int)),
            decreases self.panels.len() - i,
        {
            let panel = &self.panels[i];
            let ghost before = shown@.map_values(|p: &Panel| p@);
            if panel.is_visible() {
                shown.push(panel);
            }
            proof {
                reveal(Seq::filter);
                let next = self@.take(i + 1);
                assert(next.drop_last() =~= self@.take(i as int));
                assert(next.last() == panel@);
                assert(shown@.map_values(|p: &Panel| p@) =~= if panel@.visible {
                    before.push(panel@)
                } else {
                    before
                });
            }
            i += 1;
        }
        assert(self@.take(i as int) =~= self@);
        shown
    }
}

} // verus!
