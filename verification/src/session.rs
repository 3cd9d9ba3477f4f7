//! The session state and the reconciler that applies queued commands to it.

use vstd::prelude::*;
use crate::calculator::{recorded, Calculator, CalculatorView};
use crate::evaluator::{is_blank, outcome_view, EvaluationError, EvaluationErrorView, Number};
use crate::panel::{Panel, PanelView};
use crate::render_cache::RenderCache;
use crate::registry::{
    distinct_ids, manifest_view, panel_views, registered_all, visible_panels, with_visibility,
    Registry,
};
use crate::settings::{default_settings, with_color, Channel, Rgb, Settings};

verus! {

/// An intent queued by the user interface, consumed once by the reconciler.
#[derive(Debug, PartialEq, Eq)]
pub enum Command {
    /// Show the panel with this id.
    Show(String),
    /// Hide the panel with this id.
    Close(String),
    /// Flip the settings panel between shown and hidden.
    ToggleSettings,
    /// Flip the calculator panel between shown and hidden.
    ToggleCalculator,
    /// Evaluate this text and append the result to the transcript.
    CommitExpression(String),
    /// Replace one of the two colors.
    SetColor(Channel, Rgb),
}

/// A command as a mathematical value.
pub enum CommandView {
    Show(Seq<char>),
    Close(Seq<char>),
    ToggleSettings,
    ToggleCalculator,
    CommitExpression(Seq<char>),
    SetColor(Channel, Rgb),
}

impl View for Command {
    type V = CommandView;

    open spec fn view(&self) -> CommandView {
        match self {
            Command::Show(id) => CommandView::Show(id@),
            Command::Close(id) => CommandView::Close(id@),
            Command::ToggleSettings => CommandView::ToggleSettings,
            Command::ToggleCalculator => CommandView::ToggleCalculator,
            Command::CommitExpression(text) => CommandView::CommitExpression(text@),
            Command::SetColor(channel, color) => CommandView::SetColor(*channel, *color),
        }
    }
}

/// What one applied command reports back: the outcome of the evaluation
/// where the command committed an expression, else nothing.
pub type Committed = Option<Result<Number, EvaluationError>>;

/// A report as a mathematical value.
pub type CommittedView = Option<Result<Seq<char>, EvaluationErrorView>>;

/// The view of a report.
pub open spec fn committed_view(committed: Committed) -> CommittedView {
    match committed {
        Some(outcome) => Some(outcome_view(outcome)),
        None => None,
    }
}

/// The session as a mathematical value.
pub struct SessionView {
    pub panels: Seq<PanelView>,
    pub calculator: CalculatorView,
    pub settings: Settings,
    pub show_settings: bool,
    pub show_calculator: bool,
}

/// Whether a report can come from applying the command: there is an outcome
/// exactly for a commit of a non-empty text, and the outcome is the blank
/// error exactly when that text is blank.
pub open spec fn report_fits(command: CommandView, committed: CommittedView) -> bool {
    match command {
        CommandView::CommitExpression(text) => {
            &&& committed is Some <==> text.len() > 0
            &&& committed matches Some(outcome) ==> (is_blank(text) <==> outcome == Err::<
                Seq<char>,
                EvaluationErrorView,
            >(EvaluationErrorView::Blank))
        },
        _ => committed is None,
    }
}

/// The session after one command, given what its evaluation (if any) gave.
/// A command for an unknown panel id, and a commit of an empty text, change
/// nothing. No command clears or alters the input buffer.
pub open spec fn applied(
    session: SessionView,
    command: CommandView,
    committed: CommittedView,
) -> SessionView {
    match command {
        CommandView::Show(id) => SessionView {
            panels: with_visibility(session.panels, id, true),
            ..session
        },
        CommandView::Close(id) => SessionView {
            panels: with_visibility(session.panels, id, false),
            ..session
        },
        CommandView::ToggleSettings => SessionView {
            show_settings: !session.show_settings,
            ..session
        },
        CommandView::ToggleCalculator => SessionView {
            show_calculator: !session.show_calculator,
            ..session
        },
        CommandView::CommitExpression(text) => match committed {
            Some(outcome) => SessionView {
                calculator: recorded(session.calculator, text, outcome),
                ..session
            },
            None => session,
        },
        CommandView::SetColor(channel, color) => SessionView {
            settings: with_color(session.settings, channel, color),
            ..session
        },
    }
}

/// The session after a queue of commands applied in arrival order, given the
/// report of each.
pub open spec fn applied_all(
    session: SessionView,
    commands: Seq<CommandView>,
    reports: Seq<CommittedView>,
) -> SessionView
    decreases commands.len(),
{
    if commands.len() == 0 || reports.len() != commands.len() {
        session
    } else {
        applied(
            applied_all(session, commands.drop_last(), reports.drop_last()),
            commands.last(),
            reports.last(),
        )
    }
}

/// The session right after startup with a manifest: every panel hidden, the
/// auxiliary panels hidden, the calculator empty, the default colors.
pub open spec fn started(manifest: Seq<(Seq<char>, Seq<char>)>) -> SessionView {
    SessionView {
        panels: registered_all(Seq::empty(), manifest),
        calculator: CalculatorView { input: Seq::empty(), transcript: Seq::empty() },
        settings: default_settings(),
        show_settings: false,
        show_calculator: false,
    }
}

/// One thing to draw in a frame.
#[derive(Clone, Copy, Debug)]
pub enum PanelKind<'a> {
    /// A visible rich-text panel, drawn through the render cache.
    RichText(&'a Panel),
    /// The settings panel.
    Settings,
    /// The calculator panel.
    Calculator,
}

/// A thing to draw, as a mathematical value.
pub enum PanelKindView {
    RichText(PanelView),
    Settings,
    Calculator,
}

impl<'a> View for PanelKind<'a> {
    type V = PanelKindView;

    open spec fn view(&self) -> PanelKindView {
        match self {
            PanelKind::RichText(panel) => PanelKindView::RichText(panel@),
            PanelKind::Settings => PanelKindView::Settings,
            PanelKind::Calculator => PanelKindView::Calculator,
        }
    }
}

/// What a frame draws: the visible rich-text panels in registration order,
/// then the settings panel and the calculator panel where they are shown.
pub open spec fn frame_of(session: SessionView) -> Seq<PanelKindView> {
    visible_panels(session.panels).map_values(|panel: PanelView| PanelKindView::RichText(panel))
        + (if session.show_settings {
        seq![PanelKindView::Settings]
    } else {
        Seq::empty()
    }) + (if session.show_calculator {
        seq![PanelKindView::Calculator]
    } else {
        Seq::empty()
    })
}

/// Whether a visible panel of `panels` has the content.
pub open spec fn shows_content(panels: Seq<PanelView>, content: Seq<char>) -> bool {
    exists|i: int|
        0 <= i < panels.len() && (#[trigger] panels[i]).visible && panels[i].content == content
}

/// Whether `artifact` is something that `compute` can give for the content.
pub open spec fn computed_by<A, F: Fn(&str) -> A>(
    compute: F,
    content: Seq<char>,
    artifact: A,
) -> bool {
    exists|text: &str| text@ == content && #[trigger] compute.ensures((text,), artifact)
}

/// Whether a cache was brought up to the frame of `panels`: it holds an
/// artifact for the content of every visible panel; what it held before it
/// still holds; and every new entry is what `compute` gave for the content
/// of a visible panel.
pub open spec fn brought_up<A, F: Fn(&str) -> A>(
    panels: Seq<PanelView>,
    before: Map<Seq<char>, A>,
    after: Map<Seq<char>, A>,
    compute: F,
) -> bool {
    &&& forall|i: int|
        0 <= i < panels.len() && (#[trigger] panels[i]).visible ==> after.contains_key(
            panels[i].content,
        )
    &&& forall|key: Seq<char>| #[trigger]
        before.contains_key(key) ==> after.contains_key(key) && after[key] == before[key]
    &&& forall|key: Seq<char>| #[trigger]
        after.contains_key(key) && !before.contains_key(key) ==> shows_content(panels, key)
            && computed_by(compute, key, after[key])
}

/// When the next cycle runs.
#[derive(Clone, Copy, Debug, PartialEq, Eq, Structural)]
pub enum Wake {
    /// At once: input is waiting.
    Immediately,
    /// After this many seconds at the latest, sooner if input arrives.
    After(u64),
}

/// The longest time between two cycles, in seconds.
pub const IDLE_SECONDS: u64 = 1;

/// Schedules the next cycle: at once where input is pending, else after the
/// idle interval.
pub fn next_wake(input_pending: bool) -> (wake: Wake)
    ensures
        wake == if input_pending {
            Wake::Immediately
        } else {
            Wake::After(IDLE_SECONDS)
        },
{
    if input_pending {
        Wake::Immediately
    } else {
        Wake::After(IDLE_SECONDS)
    }
}

/// The views of a queue of commands.
pub open spec fn command_views(commands: Seq<Command>) -> Seq<CommandView> {
    commands.map_values(|command: Command| command@)
}

/// The views of a list of reports.
pub open spec fn report_views(reports: Seq<Committed>) -> Seq<CommittedView> {
    reports.map_values(|committed: Committed| committed_view(committed))
}

/// The session state: the registry of panels, the calculator, the colors,
/// and whether the two auxiliary panels are shown.
#[derive(Debug)]
pub struct TemplateApp {
    registry: Registry,
    calculator: Calculator,
    settings: Settings,
    show_settings: bool,
    show_calculator: bool,
}

impl View for TemplateApp {
    type V = SessionView;

    closed spec fn view(&self) -> SessionView {
        SessionView {
            panels: self.registry@,
            calculator: self.calculator@,
            settings: self.settings,
            show_settings: self.show_settings,
            show_calculator: self.show_calculator,
        }
    }
}

impl TemplateApp {
    /// Starts a session from the manifest of ids and contents. Of two
    /// entries with one id the first wins.
    pub fn new(manifest: &[(&str, &str)]) -> (session: TemplateApp)
        ensures
            session@ == started(manifest_view(manifest@)),
            distinct_ids(session@.panels),
    {
        let mut registry = Registry::new();
        registry.register_all(manifest);
        TemplateApp {
            registry,
            calculator: Calculator::new(),
            settings: Settings::default(),
            show_settings: false,
            show_calculator: false,
        }
    }

    /// A session made of the given parts.
    pub(crate) fn from_parts(
        registry: Registry,
        calculator: Calculator,
        settings: Settings,
        show_settings: bool,
        show_calculator: bool,
    ) -> (session: TemplateApp)
        ensures
            session@ == (SessionView {
                panels: registry@,
                calculator: calculator@,
                settings,
                show_settings,
                show_calculator,
            }),
    {
        TemplateApp { registry, calculator, settings, show_settings, show_calculator }
    }

    /// The registry of panels.
    pub fn registry(&self) -> (registry: &Registry)
        ensures
            registry@ == self@.panels,
            distinct_ids(self@.panels),
    {
        proof {
            use_type_invariant(&self.registry);
        }
        &self.registry
    }

    /// The calculator.
    pub fn calculator(&self) -> (calculator: &Calculator)
        ensures
            calculator@ == self@.calculator,
    {
        &self.calculator
    }

    /// The colors.
    pub fn settings(&self) -> (settings: Settings)
        ensures
            settings == self@.settings,
    {
        self.settings
    }

    /// Whether the settings panel is shown.
    pub fn settings_shown(&self) -> (shown: bool)
        ensures
            shown == self@.show_settings,
    {
        self.show_settings
    }

    /// Whether the calculator panel is shown.
    pub fn calculator_shown(&self) -> (shown: bool)
        ensures
            shown == self@.show_calculator,
    {
        self.show_calculator
    }

    /// Replaces the text of the calculator's input buffer, as the user
    /// edits it. Nothing else changes.
    pub fn set_input(&mut self, text: String)
        ensures
            final(self)@ == (SessionView {
                calculator: CalculatorView { input: text@, ..old(self)@.calculator },
                ..old(self)@
            }),
    {
        self.calculator.set_input(text);
    }

    /// Applies one command. The result is the outcome of the evaluation
    /// where the command committed a non-empty text.
    pub fn apply(&mut self, command: &Command) -> (committed: Committed)
        ensures
            final(self)@ == applied(old(self)@, command@, committed_view(committed)),
            report_fits(command@, committed_view(committed)),
    {
        match command {
            Command::Show(id) => {
                self.registry.request_show(id.as_str());
                None
            },
            Command::Close(id) => {
                self.registry.close(id.as_str());
                None
            },
            Command::ToggleSettings => {
                self.show_settings = !self.show_settings;
                None
            },
            Command::ToggleCalculator => {
                self.show_calculator = !self.show_calculator;
                None
            },
            Command::CommitExpression(text) => self.calculator.commit_expression(text.as_str()),
            Command::SetColor(channel, color) => {
                self.settings.set_color(*channel, *color);
                None
            },
        }
    }

    /// Drains a queue: applies every command in arrival order and reports
    /// for each what `apply` reports.
    pub fn apply_all(&mut self, commands: &Vec<Command>) -> (reports: Vec<Committed>)
        ensures
            reports@.len() == commands@.len(),
            final(self)@ == applied_all(
                old(self)@,
                command_views(commands@),
                report_views(reports@),
            ),
            forall|i: int|
                0 <= i < commands@.len() ==> report_fits(
                    #[trigger] commands@[i]@,
                    committed_view(reports@[i]),
                ),
    {
        let mut reports: Vec<Committed> = Vec::new();
        let mut i: usize = 0;
        proof {
            assert(command_views(commands@).take(0) =~= Seq::<CommandView>::empty());
        }
        while i < commands.len()
            invariant
                i <= commands.len(),
                reports@.len() == i,
                self@ == applied_all(
                    old(self)@,
                    command_views(commands@).take(i as int),
                    report_views(reports@),
                ),
                forall|j: int|
                    0 <= j < i ==> report_fits(
                        #[trigger] commands@[j]@,
                        committed_view(reports@[j]),
                    ),
            decreases commands.len() - i,
        {
            let ghost done = report_views(reports@);
            let committed = self.apply(&commands[i]);
            reports.push(committed);
            proof {
                let queue = command_views(commands@).take(i + 1);
                assert(queue.drop_last() =~= command_views(commands@).take(i as int));
                assert(queue.last() == commands@[i as int]@);
                assert(report_views(reports@).drop_last() =~= done);
                assert(report_views(reports@).last() == committed_view(committed));
            }
            i += 1;
        }
        assert(command_views(commands@).take(i as int) =~= command_views(commands@));
        reports
    }

    /// Brings the cache up to the frame: renders the content of every
    /// visible rich-text panel through it, computing only what the cache
    /// does not hold yet. The session is only read.
    pub fn render_visible<A, F: Fn(&str) -> A>(&self, cache: &mut RenderCache<A>, compute: &F)
        requires
            forall|text: &str| compute.requires((text,)),
        ensures
            brought_up(self@.panels, old(cache)@, final(cache)@, *compute),
    {
        let panels = self.registry.panels();
        let ghost start = cache@;
        let mut i: usize = 0;
        while i < panels.len()
            invariant
                i <= panels.len(),
                panel_views(panels@) == self@.panels,
                forall|text: &str| compute.requires((text,)),
                forall|j: int|
                    0 <= j < i && (#[trigger] self@.panels[j]).visible ==> cache@.contains_key(
                        self@.panels[j].content,
                    ),
                forall|key: Seq<char>| #[trigger]
                    start.contains_key(key) ==> cache@.contains_key(key) && cache@[key]
                        == start[key],
                forall|key: Seq<char>| #[trigger]
                    cache@.contains_key(key) && !start.contains_key(key) ==> shows_content(
                        self@.panels,
                        key,
                    ) && computed_by(*compute, key, cache@[key]),
            decreases panels.len() - i,
        {
            let panel = &panels[i];
            if panel.is_visible() {
                let text = panel.content().as_str();
                let ghost before = cache@;
                let artifact = cache.render(text, compute);
                proof {
                    assert(self@.panels[i as int] == panel@);
                    assert(panel@.content == text@);
                    assert(cache@ == if before.contains_key(text@) {
                        before
                    } else {
                        before.insert(text@, *artifact)
                    });
                    if !before.contains_key(text@) {
                        assert(compute.ensures((text,), *artifact));
                        assert(computed_by(*compute, text@, cache@[text@]));
                        assert(shows_content(self@.panels, text@));
                    }
                    assert forall|key: Seq<char>| #[trigger]
                        cache@.contains_key(key) && !start.contains_key(key) implies shows_content(
                        self@.panels,
                        key,
                    ) && computed_by(*compute, key, cache@[key]) by {
                        if key != text@ {
                            assert(before.contains_key(key));
                        }
                    }
                }
            }
            i += 1;
        }
    }

    /// What to draw now: the visible rich-text panels in registration
    /// order, then the settings panel and the calculator panel where shown.
    /// Drawing reads the session and changes nothing in it.
    pub fn frame(&self) -> (kinds: Vec<PanelKind<'_>>)
        ensures
            kinds@.map_values(|kind: PanelKind| kind@) == frame_of(self@),
    {
        let shown = self.registry.iterate_visible();
        let mut kinds: Vec<PanelKind<'_>> = Vec::new();
        let mut i: usize = 0;
        while i < shown.len()
            invariant
                i <= shown.len(),
                kinds@.map_values(|kind: PanelKind| kind@) == shown@.take(i as int).map_values(
                    |panel: &Panel| PanelKindView::RichText(panel@),
                ),
            decreases shown.len() - i,
        {
            let ghost before = kinds@.map_values(|kind: PanelKind| kind@);
            let panel = shown[i];
            kinds.push(PanelKind::RichText(panel));
            proof {
                let drawn = PanelKindView::RichText(panel@);
                assert(kinds@.map_values(|kind: PanelKind| kind@) =~= before.push(drawn));
                assert(shown@.take(i + 1) =~= shown@.take(i as int).push(panel));
                assert(shown@.take(i + 1).map_values(
                    |panel: &Panel| PanelKindView::RichText(panel@),
                ) =~= before.push(drawn));
            }
            i += 1;
        }
        proof {
            assert(shown@.take(i as int) =~= shown@);
            assert(shown@.map_values(|panel: &Panel| PanelKindView::RichText(panel@))
                =~= shown@.map_values(|p: &Panel| p@).map_values(
                |panel: PanelView| PanelKindView::RichText(panel),
            ));
        }
        let ghost rich = kinds@.map_values(|kind: PanelKind| kind@);
        if self.show_settings {
            kinds.push(PanelKind::Settings);
        }
        let ghost with_settings = kinds@.map_values(|kind: PanelKind| kind@);
        proof {
            assert(with_settings =~= rich + (if self.show_settings {
                seq![PanelKindView::Settings]
            } else {
                Seq::empty()
            }));
        }
        if self.show_calculator {
            kinds.push(PanelKind::Calculator);
        }
        proof {
            assert(kinds@.map_values(|kind: PanelKind| kind@) =~= with_settings + (
            if self.show_calculator {
                seq![PanelKindView::Calculator]
            } else {
                Seq::empty()
            }));
        }
        kinds
    }

    /// One cycle of the frame loop: drains the queue as `apply_all` does,
    /// brings the cache up to the resulting frame as `render_visible` does,
    /// and schedules the next cycle as `next_wake` does.
    pub fn tick<A, F: Fn(&str) -> A>(
        &mut self,
        commands: &Vec<Command>,
        cache: &mut RenderCache<A>,
        compute: &F,
        input_pending: bool,
    ) -> (done: (Vec<Committed>, Wake))
        requires
            forall|text: &str| compute.requires((text,)),
        ensures
            done.0@.len() == commands@.len(),
            final(self)@ == applied_all(
                old(self)@,
                command_views(commands@),
                report_views(done.0@),
            ),
            forall|i: int|
                0 <= i < commands@.len() ==> report_fits(
                    #[trigger] commands@[i]@,
                    committed_view(done.0@[i]),
                ),
            brought_up(final(self)@.panels, old(cache)@, final(cache)@, *compute),
            done.1 == if input_pending {
                Wake::Immediately
            } else {
                Wake::After(IDLE_SECONDS)
            },
    {
        let reports = self.apply_all(commands);
        self.render_visible(cache, compute);
        (reports, next_wake(input_pending))
    }
}

impl Default for TemplateApp {
    /// A session without panels.
    fn default() -> (session: TemplateApp)
        ensures
            session@ == started(Seq::empty()),
    {
        TemplateApp {
            registry: Registry::new(),
            calculator: Calculator::new(),
            settings: Settings::default(),
            show_settings: false,
            show_calculator: false,
        }
    }
}

} // verus!
