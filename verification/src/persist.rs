//! What of a session is kept across process lifetimes, and how a saved
//! session is laid over a freshly started one.

use vstd::prelude::*;
use crate::calculator::{text_views, Calculator, CalculatorView};
use crate::panel::PanelView;
use crate::registry::{
    manifest_view, panel_views, registered_all, with_visibility, Registry,
};
use crate::session::{SessionView, TemplateApp};
use crate::settings::{default_settings, Rgb, Settings};

verus! {

/// The saved colors. A color that is missing, or that could not be read,
/// is `None`.
#[derive(Clone, Copy, Debug, PartialEq, Eq, Structural)]
pub struct SavedSettings {
    pub background: Option<Rgb>,
    pub text: Option<Rgb>,
}

/// The saved part of a session. The content of a panel is never saved: it
/// comes from the manifest at every start. Every section may be missing.
#[derive(Debug, PartialEq, Eq)]
pub struct SavedSession {
    /// For each saved panel id, whether the panel was visible.
    pub visibility: Option<Vec<(String, bool)>>,
    /// The colors.
    pub settings: Option<SavedSettings>,
    /// Whether the settings panel was shown.
    pub show_settings: Option<bool>,
    /// Whether the calculator panel was shown.
    pub show_calculator: Option<bool>,
    /// The calculator's input buffer.
    pub input: Option<String>,
    /// The calculator's transcript.
    pub transcript: Option<Vec<String>>,
}

/// A saved session as a mathematical value.
pub struct SavedSessionView {
    pub visibility: Option<Seq<(Seq<char>, bool)>>,
    pub settings: Option<SavedSettings>,
    pub show_settings: Option<bool>,
    pub show_calculator: Option<bool>,
    pub input: Option<Seq<char>>,
    pub transcript: Option<Seq<Seq<char>>>,
}

/// The views of saved visibility entries.
pub open spec fn visibility_views(entries: Seq<(String, bool)>) -> Seq<(Seq<char>, bool)> {
    entries.map_values(|entry: (String, bool)| (entry.0@, entry.1))
}

impl View for SavedSession {
    type V = SavedSessionView;

    open spec fn view(&self) -> SavedSessionView {
        SavedSessionView {
            visibility: match self.visibility {
                Some(entries) => Some(visibility_views(entries@)),
                None => None,
            },
            settings: self.settings,
            show_settings: self.show_settings,
            show_calculator: self.show_calculator,
            input: match self.input {
                Some(text) => Some(text@),
                None => None,
            },
            transcript: match self.transcript {
                Some(lines) => Some(text_views(lines@)),
                None => None,
            },
        }
    }
}

/// The panels with every saved visibility laid over them, first entry to
/// last. An entry for an id that is not registered changes nothing.
pub open spec fn overlaid(panels: Seq<PanelView>, entries: Seq<(Seq<char>, bool)>) -> Seq<
    PanelView,
>
    decreases entries.len(),
{
    if entries.len() == 0 {
        panels
    } else {
        with_visibility(
            overlaid(panels, entries.drop_last()),
            entries.last().0,
            entries.last().1,
        )
    }
}

/// The colors of a restored session: each saved color, and the default for
/// each that is missing.
pub open spec fn restored_settings(saved: Option<SavedSettings>) -> Settings {
    match saved {
        Some(colors) => Settings {
            background: match colors.background {
                Some(color) => color,
                None => default_settings().background,
            },
            text: match colors.text {
                Some(color) => color,
                None => default_settings().text,
            },
        },
        None => default_settings(),
    }
}

/// The session that a restart gives: the manifest registered afresh, the
/// saved state laid over it, and the default for every missing section.
pub open spec fn restored(
    manifest: Seq<(Seq<char>, Seq<char>)>,
    saved: SavedSessionView,
) -> SessionView {
    SessionView {
        panels: overlaid(
            registered_all(Seq::empty(), manifest),
            match saved.visibility {
                Some(entries) => entries,
                None => Seq::empty(),
            },
        ),
        calculator: CalculatorView {
            input: match saved.input {
                Some(text) => text,
                None => Seq::empty(),
            },
            transcript: match saved.transcript {
                Some(lines) => lines,
                None => Seq::empty(),
            },
        },
        settings: restored_settings(saved.settings),
        show_settings: match saved.show_settings {
            Some(shown) => shown,
            None => false,
        },
        show_calculator: match saved.show_calculator {
            Some(shown) => shown,
            None => false,
        },
    }
}

/// The visibility entries that are saved of a registry: one for each panel,
/// in registration order.
pub open spec fn saved_entries(panels: Seq<PanelView>) -> Seq<(Seq<char>, bool)> {
    panels.map_values(|panel: PanelView| (panel.id, panel.visible))
}

/// What is saved of a session: every section, content left out.
pub open spec fn saved_of(session: SessionView) -> SavedSessionView {
    SavedSessionView {
        visibility: Some(saved_entries(session.panels)),
        settings: Some(
            SavedSettings {
                background: Some(session.settings.background),
                text: Some(session.settings.text),
            },
        ),
        show_settings: Some(session.show_settings),
        show_calculator: Some(session.show_calculator),
        input: Some(session.calculator.input),
        transcript: Some(session.calculator.transcript),
    }
}

/// Lays saved visibility entries over a registry, first to last.
fn overlay(registry: &mut Registry, entries: &Vec<(String, bool)>)
    ensures
        final(registry)@ == overlaid(old(registry)@, visibility_views(entries@)),
{
    let ghost saved = visibility_views(entries@);
    let mut i: usize = 0;
    proof {
        assert(saved.take(0) =~= Seq::<(Seq<char>, bool)>::empty());
    }
    while i < entries.len()
        invariant
            i <= entries.len(),
            saved == visibility_views(entries@),
            registry@ == overlaid(old(registry)@, saved.take(i as int)),
        decreases entries.len() - i,
    {
        proof {
            let next = saved.take(i + 1);
            assert(next.drop_last() =~= saved.take(i as int));
            assert(next.last() == (entries@[i as int].0@, entries@[i as int].1));
        }
        if entries[i].1 {
            registry.request_show(entries[i].0.as_str());
        } else {
            registry.close(entries[i].0.as_str());
        }
        i += 1;
    }
    assert(saved.take(i as int) =~= saved);
}

/// The colors of a restored session.
fn restore_settings(saved: Option<SavedSettings>) -> (settings: Settings)
    ensures
        settings == restored_settings(saved),
{
    let defaults = Settings::default();
    match saved {
        Some(colors) => Settings {
            background: match colors.background {
                Some(color) => color,
                None => defaults.background,
            },
            text: match colors.text {
                Some(color) => color,
                None => defaults.text,
            },
        },
        None => defaults,
    }
}

impl TemplateApp {
    /// Restarts a session: registers the manifest afresh and lays the saved
    /// state over it. A missing section gets its default, and nothing in
    /// the saved state makes the restart fail.
    pub fn restore(manifest: &[(&str, &str)], saved: SavedSession) -> (session: TemplateApp)
        ensures
            session@ == restored(manifest_view(manifest@), saved@),
    {
        let mut registry = Registry::new();
        registry.register_all(manifest);
        match &saved.visibility {
            Some(entries) => {
                overlay(&mut registry, entries);
            },
            None => {},
        }
        let input = match saved.input {
            Some(text) => text,
            None => String::new(),
        };
        let transcript = match saved.transcript {
            Some(lines) => lines,
            None => Vec::new(),
        };
        proof {
            if saved.transcript is None {
                assert(text_views(transcript@) =~= Seq::<Seq<char>>::empty());
            }
        }
        let show_settings = match saved.show_settings {
            Some(shown) => shown,
            None => false,
        };
        let show_calculator = match saved.show_calculator {
            Some(shown) => shown,
            None => false,
        };
        TemplateApp::from_parts(
            registry,
            Calculator::restore(input, transcript),
            restore_settings(saved.settings),
            show_settings,
            show_calculator,
        )
    }

    /// What is kept of the session across a restart.
    pub fn save(&self) -> (saved: SavedSession)
        ensures
            saved@ == saved_of(self@),
    {
        let panels = self.registry().panels();
        let mut visibility: Vec<(String, bool)> = Vec::new();
        let mut i: usize = 0;
        while i < panels.len()
            invariant
                i <= panels.len(),
                panel_views(panels@) == self@.panels,
                visibility_views(visibility@) == saved_entries(self@.panels.take(i as int)),
            decreases panels.len() - i,
        {
            let ghost before = visibility_views(visibility@);
            let id = panels[i].id().clone();
            let visible = panels[i].is_visible();
            visibility.push((id, visible));
            proof {
                let entry = (panels@[i as int]@.id, panels@[i as int]@.visible);
                assert(visibility_views(visibility@) =~= before.push(entry));
                assert(self@.panels.take(i + 1) =~= self@.panels.take(i as int).push(
                    panels@[i as int]@,
                ));
                assert(saved_entries(self@.panels.take(i + 1)) =~= before.push(entry));
            }
            i += 1;
        }
        proof {
            assert(self@.panels.take(i as int) =~= self@.panels);
        }
        let settings = self.settings();
        let lines = self.calculator().transcript();
        let mut transcript: Vec<String> = Vec::new();
        let mut j: usize = 0;
        while j < lines.len()
            invariant
                j <= lines.len(),
                text_views(transcript@) == text_views(lines@).take(j as int),
            decreases lines.len() - j,
        {
            let ghost before = text_views(transcript@);
            transcript.push(lines[j].clone());
            proof {
                assert(text_views(transcript@) =~= before.push(lines@[j as int]@));
                assert(text_views(lines@).take(j + 1) =~= before.push(lines@[j as int]@));
            }
            j += 1;
        }
        proof {
            assert(text_views(lines@).take(j as int) =~= text_views(lines@));
        }
        SavedSession {
            visibility: Some(visibility),
            settings: Some(
                SavedSettings {
                    background: Some(settings.background),
                    text: Some(settings.text),
                },
            ),
            show_settings: Some(self.settings_shown()),
            show_calculator: Some(self.calculator_shown()),
            input: Some(self.calculator().input().clone()),
            transcript: Some(transcript),
        }
    }
}

} // verus!
