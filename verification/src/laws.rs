//! Laws that relate the operations of the library, proved over the
//! mathematical values that their contracts speak of.

use vstd::prelude::*;
use crate::calculator::transcript_line;
use crate::panel::PanelView;
use crate::persist::{overlaid, restored, saved_entries, saved_of, SavedSessionView};
use crate::registry::{
    distinct_ids, has_id, registered, registered_all, visible_panels, with_visibility,
};
use crate::render_cache::rendered;
use crate::session::{applied, applied_all, started, CommandView, CommittedView, SessionView};
use crate::settings::default_settings;

verus! {

/// How many panels of `s` have the id.
pub open spec fn occurrences(s: Seq<PanelView>, id: Seq<char>) -> nat {
    s.filter(|p: PanelView| p.id == id).len()
}

/// Whether `s` holds a visible panel with the id.
pub open spec fn shows(s: Seq<PanelView>, id: Seq<char>) -> bool {
    exists|i: int| 0 <= i < s.len() && (#[trigger] s[i]).id == id && s[i].visible
}

/// Among the visible panels of a registry, an id occurs once where the
/// registry shows it and not at all where it does not.
proof fn lemma_visible_occurrences(s: Seq<PanelView>, id: Seq<char>)
    requires
        distinct_ids(s),
    ensures
        occurrences(visible_panels(s), id) == if shows(s, id) {
            1nat
        } else {
            0nat
        },
    decreases s.len(),
{
    reveal(Seq::filter);
    if s.len() == 0 {
    } else {
        let init = s.drop_last();
        let last = s.last();
        assert(distinct_ids(init)) by {
            assert forall|i: int, j: int| 0 <= i < j < init.len() implies (#[trigger] init[i]).id
                != (#[trigger] init[j]).id by {
                assert(init[i] == s[i] && init[j] == s[j]);
            }
        }
        lemma_visible_occurrences(init, id);
        let shown = visible_panels(init);
        if shows(init, id) {
            let k = choose|k: int|
                0 <= k < init.len() && (#[trigger] init[k]).id == id && init[k].visible;
            assert(s[k] == init[k]);
            assert(s[k].id != s[s.len() - 1].id);
            assert(shows(s, id));
        } else if last.id == id && last.visible {
            assert(s[s.len() - 1].id == id);
            assert(shows(s, id));
        } else {
            if shows(s, id) {
                let k = choose|k: int|
                    0 <= k < s.len() && (#[trigger] s[k]).id == id && s[k].visible;
                if k < init.len() {
                    assert(init[k] == s[k]);
                    assert(false);
                }
                assert(false);
            }
        }
        if last.visible {
            assert(visible_panels(s) == shown.push(last));
            assert(shown.push(last).drop_last() =~= shown);
        } else {
            assert(visible_panels(s) == shown);
        }
    }
}

/// Showing a registered panel puts it among the visible panels exactly
/// once.
pub proof fn law_shown_panel_is_listed_once(panels: Seq<PanelView>, id: Seq<char>)
    requires
        distinct_ids(panels),
        has_id(panels, id),
    ensures
        occurrences(visible_panels(with_visibility(panels, id, true)), id) == 1,
{
    let after = with_visibility(panels, id, true);
    let k = choose|k: int| 0 <= k < panels.len() && (#[trigger] panels[k]).id == id;
    assert(after[k].id == id && after[k].visible);
    assert(shows(after, id));
    law_visibility_change_keeps_panels(panels, id, true);
    lemma_visible_occurrences(after, id);
}

/// Closing a panel takes it out of the visible panels and leaves it
/// registered, so that showing it again lists it once more.
pub proof fn law_closed_panel_stays_registered(panels: Seq<PanelView>, id: Seq<char>)
    requires
        distinct_ids(panels),
        has_id(panels, id),
    ensures
        occurrences(visible_panels(with_visibility(panels, id, false)), id) == 0,
        has_id(with_visibility(panels, id, false), id),
        distinct_ids(with_visibility(panels, id, false)),
        occurrences(
            visible_panels(with_visibility(with_visibility(panels, id, false), id, true)),
            id,
        ) == 1,
{
    let after = with_visibility(panels, id, false);
    let k = choose|k: int| 0 <= k < panels.len() && (#[trigger] panels[k]).id == id;
    assert(after[k].id == id);
    law_visibility_change_keeps_panels(panels, id, false);
    lemma_visible_occurrences(after, id);
    law_shown_panel_is_listed_once(after, id);
}

/// Changing a visibility changes no id, no title and no content, and
/// touches the visibility of no other panel.
pub proof fn law_visibility_change_keeps_panels(
    panels: Seq<PanelView>,
    id: Seq<char>,
    visible: bool,
)
    ensures
        with_visibility(panels, id, visible).len() == panels.len(),
        forall|i: int|
            0 <= i < panels.len() ==> {
                let before = #[trigger] panels[i];
                let after = with_visibility(panels, id, visible)[i];
                &&& after.id == before.id
                &&& after.title == before.title
                &&& after.content == before.content
                &&& after.visible == if before.id == id {
                    visible
                } else {
                    before.visible
                }
            },
        distinct_ids(panels) ==> distinct_ids(with_visibility(panels, id, visible)),
        forall|other: Seq<char>|
            has_id(with_visibility(panels, id, visible), other) <==> has_id(panels, other),
{
    let after = with_visibility(panels, id, visible);
    assert forall|other: Seq<char>| has_id(after, other) <==> has_id(panels, other) by {
        if has_id(after, other) {
            let k = choose|k: int| 0 <= k < after.len() && (#[trigger] after[k]).id == other;
            assert(panels[k].id == other);
        }
        if has_id(panels, other) {
            let k = choose|k: int| 0 <= k < panels.len() && (#[trigger] panels[k]).id == other;
            assert(after[k].id == other);
        }
    }
    if distinct_ids(panels) {
        assert forall|i: int, j: int| 0 <= i < j < after.len() implies (#[trigger] after[i]).id != (
        #[trigger] after[j]).id by {
            assert(panels[i].id != panels[j].id);
        }
    }
}

/// Registering an id a second time changes nothing: the panel keeps the
/// content of the first registration.
pub proof fn law_first_registration_wins(
    panels: Seq<PanelView>,
    id: Seq<char>,
    first: Seq<char>,
    second: Seq<char>,
)
    ensures
        registered(registered(panels, id, first), id, second) == registered(panels, id, first),
{
    let once = registered(panels, id, first);
    if !has_id(panels, id) {
        assert(once[once.len() - 1].id == id);
    }
    assert(has_id(once, id));
}

/// Registration keeps every panel that is there, as it is, and keeps the
/// ids distinct.
pub proof fn law_registration_keeps_panels(
    panels: Seq<PanelView>,
    id: Seq<char>,
    content: Seq<char>,
)
    requires
        distinct_ids(panels),
    ensures
        distinct_ids(registered(panels, id, content)),
        has_id(registered(panels, id, content), id),
        panels.len() <= registered(panels, id, content).len(),
        forall|i: int| 0 <= i < panels.len() ==> registered(panels, id, content)[i] == panels[i],
{
    let after = registered(panels, id, content);
    if has_id(panels, id) {
    } else {
        assert(after[after.len() - 1].id == id);
        assert forall|i: int, j: int| 0 <= i < j < after.len() implies (#[trigger] after[i]).id != (
        #[trigger] after[j]).id by {
            if j < panels.len() {
                assert(panels[i].id != panels[j].id);
            } else {
                assert(after[i] == panels[i]);
            }
        }
    }
}

/// Rendering one content twice gives the same artifact both times and
/// leaves the cache after the first call as it is: the second call does not
/// depend on what the computation would give, so it has no need of it.
pub proof fn law_second_render_hits<A>(
    cache: Map<Seq<char>, A>,
    content: Seq<char>,
    first: A,
    second: A,
)
    ensures
        rendered(rendered(cache, content, first).0, content, second) == rendered(
            cache,
            content,
            first,
        ),
{
}

/// Rendering never drops or replaces an entry: what the cache held, it
/// still holds, whatever content is rendered.
pub proof fn law_render_keeps_entries<A>(
    cache: Map<Seq<char>, A>,
    content: Seq<char>,
    computed: A,
    held: Seq<char>,
)
    requires
        cache.contains_key(held),
    ensures
        rendered(cache, content, computed).0.contains_key(held),
        rendered(cache, content, computed).0[held] == cache[held],
        rendered(cache, content, computed).0.contains_key(content),
{
}

/// No command clears or alters the input buffer, and only a commit that
/// was evaluated touches the transcript: it appends exactly one line.
pub proof fn law_commit_appends_one_line(
    session: SessionView,
    command: CommandView,
    committed: CommittedView,
)
    ensures
        applied(session, command, committed).calculator.input == session.calculator.input,
        applied(session, command, committed).calculator.transcript == match (command, committed) {
            (CommandView::CommitExpression(text), Some(outcome)) => {
                session.calculator.transcript.push(transcript_line(text, outcome))
            },
            _ => session.calculator.transcript,
        },
{
}

/// No command adds, removes or reorders a panel, or changes an id, a title
/// or a content: commands change visibility only.
pub proof fn law_commands_keep_registry(
    session: SessionView,
    command: CommandView,
    committed: CommittedView,
)
    requires
        distinct_ids(session.panels),
    ensures
        distinct_ids(applied(session, command, committed).panels),
        applied(session, command, committed).panels.len() == session.panels.len(),
        forall|i: int|
            0 <= i < session.panels.len() ==> {
                let before = #[trigger] session.panels[i];
                let after = applied(session, command, committed).panels[i];
                &&& after.id == before.id
                &&& after.title == before.title
                &&& after.content == before.content
            },
{
    match command {
        CommandView::Show(id) => {
            law_visibility_change_keeps_panels(session.panels, id, true);
        },
        CommandView::Close(id) => {
            law_visibility_change_keeps_panels(session.panels, id, false);
        },
        _ => {},
    }
}

/// A saved session without the settings section restores to the default
/// colors.
pub proof fn law_missing_settings_restore_defaults(
    manifest: Seq<(Seq<char>, Seq<char>)>,
    saved: SavedSessionView,
)
    requires
        saved.settings is None,
    ensures
        restored(manifest, saved).settings == default_settings(),
{
}

/// Whether two registries hold the same panels up to visibility.
pub open spec fn same_panels(a: Seq<PanelView>, b: Seq<PanelView>) -> bool {
    &&& a.len() == b.len()
    &&& forall|i: int|
        0 <= i < a.len() ==> {
            &&& (#[trigger] a[i]).id == b[i].id
            &&& a[i].title == b[i].title
            &&& a[i].content == b[i].content
        }
}

/// Laying the first `k` saved entries of `panels` over a registry with the
/// same panels gives the first `k` panels of `panels` and leaves the rest.
proof fn lemma_overlay_prefix(panels: Seq<PanelView>, fresh: Seq<PanelView>, k: int)
    requires
        distinct_ids(panels),
        same_panels(panels, fresh),
        0 <= k <= panels.len(),
    ensures
        overlaid(fresh, saved_entries(panels).take(k)) == Seq::new(
            panels.len(),
            |i: int|
                if i < k {
                    panels[i]
                } else {
                    fresh[i]
                },
        ),
    decreases k,
{
    let entries = saved_entries(panels);
    let merged = |k: int|
        Seq::new(
            panels.len(),
            |i: int|
                if i < k {
                    panels[i]
                } else {
                    fresh[i]
                },
        );
    if k == 0 {
        assert(entries.take(0) =~= Seq::<(Seq<char>, bool)>::empty());
        assert(merged(0) =~= fresh);
    } else {
        lemma_overlay_prefix(panels, fresh, k - 1);
        let prefix = entries.take(k);
        assert(prefix.drop_last() =~= entries.take(k - 1));
        assert(prefix.last() == (panels[k - 1].id, panels[k - 1].visible));
        let before = merged(k - 1);
        let after = with_visibility(before, panels[k - 1].id, panels[k - 1].visible);
        assert(after =~= merged(k)) by {
            assert forall|i: int| 0 <= i < panels.len() implies after[i] == merged(k)[i] by {
                assert(before[i].id == panels[i].id);
                if i < k - 1 {
                    assert(panels[i].id != panels[k - 1].id);
                } else if i > k - 1 {
                    assert(panels[k - 1].id != panels[i].id);
                }
            }
        }
    }
}

/// Saving a session and restarting from what was saved, with the manifest
/// that the session was started from, gives the session back: visibility,
/// transcript, input buffer and colors come from the saved state, ids and
/// contents from the manifest.
pub proof fn law_restart_restores_session(
    manifest: Seq<(Seq<char>, Seq<char>)>,
    session: SessionView,
)
    requires
        distinct_ids(session.panels),
        same_panels(session.panels, registered_all(Seq::empty(), manifest)),
    ensures
        restored(manifest, saved_of(session)) == session,
{
    let fresh = registered_all(Seq::empty(), manifest);
    let n = session.panels.len() as int;
    lemma_overlay_prefix(session.panels, fresh, n);
    assert(saved_entries(session.panels).take(n) =~= saved_entries(session.panels));
    assert(overlaid(fresh, saved_entries(session.panels)) =~= session.panels);
    let again = restored(manifest, saved_of(session));
    assert(again.panels == session.panels);
    assert(again.calculator == session.calculator);
    assert(again.settings == session.settings);
}

/// The registry that a manifest gives has no id twice.
pub proof fn law_manifest_gives_distinct_ids(manifest: Seq<(Seq<char>, Seq<char>)>)
    ensures
        distinct_ids(registered_all(Seq::empty(), manifest)),
    decreases manifest.len(),
{
    if manifest.len() > 0 {
        law_manifest_gives_distinct_ids(manifest.drop_last());
        law_registration_keeps_panels(
            registered_all(Seq::empty(), manifest.drop_last()),
            manifest.last().0,
            manifest.last().1,
        );
    }
}

/// A queue of commands, whatever it holds, leaves the registry with the
/// panels it had: the same ids, titles and contents in the same order.
pub proof fn law_queue_keeps_registry(
    session: SessionView,
    commands: Seq<CommandView>,
    reports: Seq<CommittedView>,
)
    requires
        distinct_ids(session.panels),
    ensures
        distinct_ids(applied_all(session, commands, reports).panels),
        same_panels(applied_all(session, commands, reports).panels, session.panels),
    decreases commands.len(),
{
    if commands.len() == 0 || reports.len() != commands.len() {
    } else {
        let before = applied_all(session, commands.drop_last(), reports.drop_last());
        law_queue_keeps_registry(session, commands.drop_last(), reports.drop_last());
        law_commands_keep_registry(before, commands.last(), reports.last());
        let after = applied(before, commands.last(), reports.last());
        assert forall|i: int| 0 <= i < after.panels.len() implies {
            &&& (#[trigger] after.panels[i]).id == session.panels[i].id
            &&& after.panels[i].title == session.panels[i].title
            &&& after.panels[i].content == session.panels[i].content
        } by {
            assert(before.panels[i].id == session.panels[i].id);
        }
    }
}

/// Every session that commands lead to from startup survives a restart:
/// saved and restored with the same manifest, it is the same session.
pub proof fn law_restart_after_any_queue(
    manifest: Seq<(Seq<char>, Seq<char>)>,
    commands: Seq<CommandView>,
    reports: Seq<CommittedView>,
)
    ensures
        restored(manifest, saved_of(applied_all(started(manifest), commands, reports)))
            == applied_all(started(manifest), commands, reports),
{
    law_manifest_gives_distinct_ids(manifest);
    law_queue_keeps_registry(started(manifest), commands, reports);
    law_restart_restores_session(manifest, applied_all(started(manifest), commands, reports));
}

} // verus!
