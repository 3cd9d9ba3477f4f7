use content_browser::evaluator::{EvaluationError, Number};
use content_browser::render_cache::RenderCache;
use content_browser::session::{next_wake, Command, PanelKind, TemplateApp, Wake, IDLE_SECONDS};
use content_browser::settings::{Channel, Rgb, Settings};
use std::cell::Cell;

const MANIFEST: [(&str, &str); 3] = [("A", "# a"), ("B", "# b"), ("C", "# c")];

fn show(id: &str) -> Command {
    Command::Show(String::from(id))
}

fn close(id: &str) -> Command {
    Command::Close(String::from(id))
}

fn commit(text: &str) -> Command {
    Command::CommitExpression(String::from(text))
}

fn drawn(session: &TemplateApp) -> Vec<String> {
    session
        .frame()
        .iter()
        .map(|kind| match kind {
            PanelKind::RichText(panel) => format!("panel {}", panel.id()),
            PanelKind::Settings => String::from("settings"),
            PanelKind::Calculator => String::from("calculator"),
        })
        .collect()
}

#[test]
fn default_colors() {
    let settings = Settings::default();
    assert_eq!(settings.background, Rgb { red: 38, green: 38, blue: 38 });
    assert_eq!(settings.text, Rgb { red: 255, green: 255, blue: 255 });
    assert_eq!(settings.color(Channel::Background), settings.background);
    assert_eq!(settings.color(Channel::Text), settings.text);
}

#[test]
fn set_color_replaces_one_channel() {
    let mut settings = Settings::default();
    let red = Rgb { red: 200, green: 0, blue: 0 };
    settings.set_color(Channel::Text, red);
    assert_eq!(settings.text, red);
    assert_eq!(settings.background, Rgb { red: 38, green: 38, blue: 38 });
    settings.set_color(Channel::Background, Rgb { red: 1, green: 2, blue: 3 });
    assert_eq!(settings.background, Rgb { red: 1, green: 2, blue: 3 });
    assert_eq!(settings.text, red);
}

#[test]
fn fresh_session_shows_nothing() {
    let session = TemplateApp::new(&MANIFEST);
    assert_eq!(session.registry().len(), 3);
    assert!(session.registry().iterate_visible().is_empty());
    assert!(!session.settings_shown());
    assert!(!session.calculator_shown());
    assert_eq!(session.settings(), Settings::default());
    assert_eq!(session.calculator().input(), "");
    assert!(session.calculator().transcript().is_empty());
    assert!(session.frame().is_empty());
}

#[test]
fn default_session_has_no_panels() {
    let session = TemplateApp::default();
    assert_eq!(session.registry().len(), 0);
    assert_eq!(session.settings(), Settings::default());
    assert!(session.frame().is_empty());
}

#[test]
fn show_and_close_commands_change_visibility() {
    let mut session = TemplateApp::new(&MANIFEST);
    assert_eq!(session.apply(&show("A")), None);
    assert_eq!(session.apply(&show("B")), None);
    assert_eq!(drawn(&session), vec!["panel A", "panel B"]);
    assert_eq!(session.apply(&close("A")), None);
    assert_eq!(drawn(&session), vec!["panel B"]);
}

#[test]
fn command_for_an_unknown_panel_is_ignored() {
    let mut session = TemplateApp::new(&MANIFEST);
    session.apply(&show("B"));
    assert_eq!(session.apply(&show("Profiling")), None);
    assert_eq!(session.apply(&close("Nowhere")), None);
    assert_eq!(session.registry().len(), 3);
    assert_eq!(drawn(&session), vec!["panel B"]);
}

#[test]
fn toggles_flip_the_auxiliary_panels() {
    let mut session = TemplateApp::new(&MANIFEST);
    session.apply(&Command::ToggleSettings);
    assert!(session.settings_shown());
    assert!(!session.calculator_shown());
    session.apply(&Command::ToggleCalculator);
    assert!(session.calculator_shown());
    session.apply(&Command::ToggleSettings);
    assert!(!session.settings_shown());
    assert!(session.calculator_shown());
}

#[test]
fn set_color_command_changes_the_settings() {
    let mut session = TemplateApp::new(&MANIFEST);
    let blue = Rgb { red: 0, green: 0, blue: 136 };
    assert_eq!(session.apply(&Command::SetColor(Channel::Background, blue)), None);
    assert_eq!(session.settings().background, blue);
    assert_eq!(session.settings().text, Rgb { red: 255, green: 255, blue: 255 });
}

#[test]
fn commit_command_appends_to_the_transcript() {
    let mut session = TemplateApp::new(&MANIFEST);
    session.set_input(String::from("3*3"));
    let committed = session.apply(&commit("3*3"));
    assert_eq!(committed, Some(Ok(Number::from_text(String::from("9")))));
    assert_eq!(session.calculator().transcript(), &vec![String::from("3*3 = 9")]);
    assert_eq!(session.calculator().input(), "3*3");
}

#[test]
fn commit_command_with_empty_text_is_ignored() {
    let mut session = TemplateApp::new(&MANIFEST);
    assert_eq!(session.apply(&commit("")), None);
    assert!(session.calculator().transcript().is_empty());
}

#[test]
fn commands_are_applied_in_arrival_order() {
    let mut session = TemplateApp::new(&MANIFEST);
    let queue = vec![
        show("A"),
        commit("1+1"),
        close("A"),
        show("C"),
        commit("oops("),
        Command::ToggleCalculator,
        show("A"),
        close("C"),
        commit(""),
    ];
    let reports = session.apply_all(&queue);
    assert_eq!(reports.len(), 9);
    assert_eq!(reports[0], None);
    assert_eq!(reports[1], Some(Ok(Number::from_text(String::from("2")))));
    assert!(matches!(reports[4], Some(Err(EvaluationError::Rejected(_)))));
    assert_eq!(reports[8], None);
    assert_eq!(drawn(&session), vec!["panel A", "calculator"]);
    assert_eq!(session.calculator().transcript().len(), 2);
    assert_eq!(session.calculator().transcript()[0], "1+1 = 2");
}

#[test]
fn empty_queue_changes_nothing() {
    let mut session = TemplateApp::new(&MANIFEST);
    session.apply(&show("B"));
    let reports = session.apply_all(&Vec::new());
    assert!(reports.is_empty());
    assert_eq!(drawn(&session), vec!["panel B"]);
}

#[test]
fn frame_lists_panels_then_settings_then_calculator() {
    let mut session = TemplateApp::new(&MANIFEST);
    let queue = vec![Command::ToggleCalculator, show("C"), Command::ToggleSettings, show("A")];
    session.apply_all(&queue);
    assert_eq!(drawn(&session), vec!["panel A", "panel C", "settings", "calculator"]);
}

#[test]
fn next_cycle_is_immediate_on_input_and_after_a_second_when_idle() {
    assert_eq!(next_wake(true), Wake::Immediately);
    assert_eq!(next_wake(false), Wake::After(1));
    assert_eq!(IDLE_SECONDS, 1);
}

#[test]
fn tick_runs_one_whole_cycle() {
    let mut session = TemplateApp::new(&MANIFEST);
    let calls = Cell::new(0u32);
    let compute = |content: &str| {
        calls.set(calls.get() + 1);
        content.len()
    };
    let mut cache: RenderCache<usize> = RenderCache::new();
    let (reports, wake) = session.tick(&vec![show("B"), commit("2^3")], &mut cache, &compute, true);
    assert_eq!(reports, vec![None, Some(Ok(Number::from_text(String::from("8"))))]);
    assert_eq!(wake, Wake::Immediately);
    assert_eq!(drawn(&session), vec!["panel B"]);
    assert_eq!(cache.get("# b"), Some(&3));
    assert_eq!(calls.get(), 1);
    let (reports, wake) = session.tick(&Vec::new(), &mut cache, &compute, false);
    assert!(reports.is_empty());
    assert_eq!(wake, Wake::After(IDLE_SECONDS));
    assert_eq!(drawn(&session), vec!["panel B"]);
    assert_eq!(calls.get(), 1);
}

#[test]
fn visible_panels_are_rendered_through_the_cache_once() {
    let mut session = TemplateApp::new(&MANIFEST);
    session.apply_all(&vec![show("A"), show("C")]);
    let calls = Cell::new(0u32);
    let compute = |content: &str| {
        calls.set(calls.get() + 1);
        content.len()
    };
    let mut cache: RenderCache<usize> = RenderCache::new();
    session.render_visible(&mut cache, &compute);
    assert_eq!(calls.get(), 2);
    assert_eq!(cache.get("# a"), Some(&3));
    assert_eq!(cache.get("# c"), Some(&3));
    assert!(!cache.contains("# b"));
    session.render_visible(&mut cache, &compute);
    assert_eq!(calls.get(), 2);
    session.apply(&show("B"));
    session.render_visible(&mut cache, &compute);
    assert_eq!(calls.get(), 3);
    assert!(cache.contains("# b"));
}

#[test]
fn panels_with_one_content_share_one_artifact() {
    let mut session = TemplateApp::new(&[("X", "same"), ("Y", "same"), ("Z", "other")]);
    session.apply_all(&vec![show("X"), show("Y"), show("Z")]);
    let calls = Cell::new(0u32);
    let compute = |content: &str| {
        calls.set(calls.get() + 1);
        String::from(content)
    };
    let mut cache: RenderCache<String> = RenderCache::new();
    session.render_visible(&mut cache, &compute);
    assert_eq!(calls.get(), 2);
    assert_eq!(cache.get("same"), Some(&String::from("same")));
}

#[test]
fn rendering_does_not_change_the_session() {
    let mut session = TemplateApp::new(&MANIFEST);
    session.apply(&show("B"));
    let before = session.save();
    let mut cache: RenderCache<usize> = RenderCache::new();
    session.render_visible(&mut cache, &|content: &str| content.len());
    assert_eq!(session.save(), before);
}
