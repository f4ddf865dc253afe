//! Turning a request into the steps that the operator of the viewer carries
//! out.
use vstd::prelude::*;
use rand::seq::SliceRandom;
use crate::config::{first_named, names_of, texts, Category, CategoryView, Config, ConfigView};
use crate::launch::{viewer_args, viewer_arguments};
use crate::text::{all_whitespace, lemma_trimmed_ignores_padding, trim, trimmed};

verus! {

/// How long a one-shot viewer is left running, in milliseconds.
pub const GRACE_MILLIS: u64 = 200;

/// What becomes of a viewer once it has been started.
#[derive(Clone, Copy, Debug, PartialEq, Eq)]
pub enum Policy {
    /// The viewer is started, given a short time, and terminated.
    OneShot,
    /// The viewer runs until the next selection replaces it.
    PersistentReplace,
}

/// What a request asks for.
#[derive(Debug, PartialEq, Eq)]
pub enum Mode {
    /// List the category names.
    Query,
    /// Show a category picked at random.
    Random,
    /// Show the category of this name.
    Named(String),
}

pub enum ModeView {
    Query,
    Random,
    Named(Seq<char>),
}

impl View for Mode {
    type V = ModeView;

    open spec fn view(&self) -> ModeView {
        match self {
            Mode::Query => ModeView::Query,
            Mode::Random => ModeView::Random,
            Mode::Named(name) => ModeView::Named(name@),
        }
    }
}

/// Why a selection could not be made.
#[derive(Clone, Copy, Debug, PartialEq, Eq)]
pub enum SelectError {
    /// A random pick was asked for and the configuration has no category.
    NoCategoriesAvailable,
}

/// One thing for the operator of the viewer to do.
#[derive(Debug, PartialEq, Eq)]
pub enum Step {
    /// Print these lines, one per line, to standard output.
    Print(Vec<String>),
    /// Warn that the requested category is unknown.
    WarnUnknownCategory,
    /// Terminate the current viewer.
    Terminate,
    /// Start the viewer with these arguments; it becomes the current one.
    Spawn(Vec<String>),
    /// Wait for this many milliseconds.
    Wait(u64),
}

pub enum StepView {
    Print(Seq<Seq<char>>),
    WarnUnknownCategory,
    Terminate,
    Spawn(Seq<Seq<char>>),
    Wait(u64),
}

impl View for Step {
    type V = StepView;

    open spec fn view(&self) -> StepView {
        match self {
            Step::Print(lines) => StepView::Print(texts(lines@)),
            Step::WarnUnknownCategory => StepView::WarnUnknownCategory,
            Step::Terminate => StepView::Terminate,
            Step::Spawn(args) => StepView::Spawn(texts(args@)),
            Step::Wait(millis) => StepView::Wait(*millis),
        }
    }
}

/// The steps to carry out, in order, and whether a viewer is left running
/// after them.
#[derive(Debug, PartialEq, Eq)]
pub struct Plan {
    pub steps: Vec<Step>,
    pub running: bool,
}

pub struct PlanView {
    pub steps: Seq<StepView>,
    pub running: bool,
}

impl View for Plan {
    type V = PlanView;

    open spec fn view(&self) -> PlanView {
        PlanView {
            steps: Seq::new(self.steps.len() as nat, |i: int| self.steps[i]@),
            running: self.running,
        }
    }
}

/// The mode that a request text stands for: surrounding whitespace is
/// dropped, the two reserved words are told apart exactly, and anything else
/// is a category name.
pub open spec fn mode_of(input: Seq<char>) -> ModeView {
    let t = trimmed(input);
    if t == "query"@ {
        ModeView::Query
    } else if t == "random"@ {
        ModeView::Random
    } else {
        ModeView::Named(t)
    }
}

/// The request that a command line stands for: the one argument given, the
/// listing when none is given, and the empty name otherwise.
pub open spec fn choice_of(args: Seq<String>) -> Seq<char> {
    if args.len() == 2 {
        args[1]@
    } else if args.len() == 1 {
        "query"@
    } else {
        Seq::<char>::empty()
    }
}

/// The lines of a listing: the names in declared order, followed under the
/// one-shot policy by the entry that offers a random pick.
pub open spec fn listing(policy: Policy, categories: Seq<CategoryView>) -> Seq<Seq<char>> {
    match policy {
        Policy::OneShot => names_of(categories).push("random"@),
        Policy::PersistentReplace => names_of(categories),
    }
}

/// The plan that shows a viewer with `args`. Under the one-shot policy the
/// viewer is started, left alone for the grace period and terminated. Under
/// the persistent policy a running viewer is terminated first, and the new
/// one stays.
pub open spec fn launch_plan(policy: Policy, running: bool, args: Seq<Seq<char>>) -> PlanView {
    match policy {
        Policy::OneShot => PlanView {
            steps: seq![StepView::Spawn(args), StepView::Wait(GRACE_MILLIS), StepView::Terminate],
            running: false,
        },
        Policy::PersistentReplace => if running {
            PlanView { steps: seq![StepView::Terminate, StepView::Spawn(args)], running: true }
        } else {
            PlanView { steps: seq![StepView::Spawn(args)], running: true }
        },
    }
}

/// The plan for a request, given the category that a random draw picked.
pub open spec fn planned(
    policy: Policy,
    running: bool,
    config: ConfigView,
    mode: ModeView,
    picked: Option<CategoryView>,
) -> Result<PlanView, SelectError> {
    match mode {
        ModeView::Query => Ok(
            PlanView { steps: seq![StepView::Print(listing(policy, config.categories))], running },
        ),
        ModeView::Random => match picked {
            Some(category) => Ok(
                launch_plan(policy, running, viewer_args(config.feh_arg, category.paths)),
            ),
            None => Err(SelectError::NoCategoriesAvailable),
        },
        ModeView::Named(name) => match first_named(config.categories, name) {
            Some(i) => Ok(
                launch_plan(
                    policy,
                    running,
                    viewer_args(config.feh_arg, config.categories[i].paths),
                ),
            ),
            None => Ok(PlanView { steps: seq![StepView::WarnUnknownCategory], running }),
        },
    }
}

/// The view of a planning result.
pub open spec fn outcome_view(outcome: Result<Plan, SelectError>) -> Result<PlanView, SelectError> {
    match outcome {
        Ok(plan) => Ok(plan@),
        Err(e) => Err(e),
    }
}

/// The view of the category behind an optional reference.
pub open spec fn picked_value(picked: Option<&Category>) -> Option<CategoryView> {
    match picked {
        Some(category) => Some(category@),
        None => None,
    }
}

/// Trusted: `SliceRandom::choose` of `rand` on the categories, with the
/// thread-local generator of `rand::thread_rng`. It returns nothing for an
/// empty slice and otherwise a reference to one of the slice's elements;
/// which one is left open.
#[verifier::external_body]
fn choose_category(categories: &Vec<Category>) -> (picked: Option<&Category>)
    ensures
        picked is Some <==> categories.len() > 0,
        picked is Some ==> exists|i: int|
            0 <= i < categories.len() && #[trigger] categories[i] == *picked.unwrap(),
{
    categories.choose(&mut rand::thread_rng())
}

/// The policy that a startup setting selects: the persistent one where the
/// setting is the word `persistent`, the one-shot policy in every other case.
pub open spec fn policy_of(setting: Option<Seq<char>>) -> Policy {
    if setting == Some("persistent"@) {
        Policy::PersistentReplace
    } else {
        Policy::OneShot
    }
}

impl Policy {
    /// Selects the policy for a run from its startup setting, if one was
    /// given.
    pub fn from_setting(setting: Option<&str>) -> (policy: Policy)
        ensures
            policy == policy_of(
                match setting {
                    Some(word) => Some(word@),
                    None => None,
                },
            ),
    {
        match setting {
            Some(word) => {
                if word.to_owned() == "persistent".to_owned() {
                    Policy::PersistentReplace
                } else {
                    Policy::OneShot
                }
            },
            None => Policy::OneShot,
        }
    }
}

impl Mode {
    /// Reads a request.
    pub fn parse(input: &str) -> (mode: Mode)
        ensures
            mode@ == mode_of(input@),
    {
        let name: String = trim(input).to_owned();
        if name == "query".to_owned() {
            Mode::Query
        } else if name == "random".to_owned() {
            Mode::Random
        } else {
            Mode::Named(name)
        }
    }
}

/// The request that the command line `args` stands for, the program's own
/// name included in `args`.
pub fn requested_choice(args: &Vec<String>) -> (choice: String)
    ensures
        choice@ == choice_of(args@),
{
    if args.len() == 2 {
        args[1].clone()
    } else if args.len() == 1 {
        "query".to_owned()
    } else {
        String::new()
    }
}

/// The lines that a listing prints.
pub fn list_categories(policy: Policy, config: &Config) -> (lines: Vec<String>)
    ensures
        texts(lines@) == listing(policy, config@.categories),
{
    let mut lines = config.category_names();
    match policy {
        Policy::OneShot => {
            lines.push("random".to_owned());
            assert(texts(lines@) =~= listing(policy, config@.categories));
        },
        Policy::PersistentReplace => {},
    }
    lines
}

/// The plan that shows a viewer started with `args`.
pub fn plan_launch(policy: Policy, running: bool, args: Vec<String>) -> (plan: Plan)
    ensures
        plan@ == launch_plan(policy, running, texts(args@)),
{
    let ghost shown = texts(args@);
    let mut steps: Vec<Step> = Vec::new();
    let plan = match policy {
        Policy::OneShot => {
            steps.push(Step::Spawn(args));
            steps.push(Step::Wait(GRACE_MILLIS));
            steps.push(Step::Terminate);
            Plan { steps, running: false }
        },
        Policy::PersistentReplace => {
            if running {
                steps.push(Step::Terminate);
            }
            steps.push(Step::Spawn(args));
            Plan { steps, running: true }
        },
    };
    assert(plan@.steps =~= launch_plan(policy, running, shown).steps);
    plan
}

/// Plans a request. `picked` is the category that a random draw gave; it is
/// read only where `mode` asks for a random pick.
pub fn plan(
    policy: Policy,
    running: bool,
    config: &Config,
    mode: &Mode,
    picked: Option<&Category>,
) -> (outcome: Result<Plan, SelectError>)
    ensures
        outcome_view(outcome) == planned(policy, running, config@, mode@, picked_value(picked)),
{
    match mode {
        Mode::Query => {
            let mut steps: Vec<Step> = Vec::new();
            steps.push(Step::Print(list_categories(policy, config)));
            let plan = Plan { steps, running };
            assert(plan@.steps =~= seq![StepView::Print(listing(policy, config@.categories))]);
            Ok(plan)
        },
        Mode::Random => match picked {
            Some(category) => Ok(
                plan_launch(
                    policy,
                    running,
                    viewer_arguments(config.feh_arg.as_str(), &category.paths),
                ),
            ),
            None => Err(SelectError::NoCategoriesAvailable),
        },
        Mode::Named(name) => match config.find_exact(name.as_str()) {
            Some(i) => Ok(
                plan_launch(
                    policy,
                    running,
                    viewer_arguments(config.feh_arg.as_str(), &config.categories[i].paths),
                ),
            ),
            None => {
                let mut steps: Vec<Step> = Vec::new();
                steps.push(Step::WarnUnknownCategory);
                let plan = Plan { steps, running };
                assert(plan@.steps =~= seq![StepView::WarnUnknownCategory]);
                Ok(plan)
            },
        },
    }
}

/// The viewer's arguments for a category picked at random. It fails exactly
/// where there is no category; otherwise the arguments are those of one of
/// the configured categories.
pub fn select_random(config: &Config) -> (outcome: Result<Vec<String>, SelectError>)
    ensures
        match outcome {
            Ok(args) => exists|i: int|
                0 <= i < config@.categories.len() && texts(args@) == viewer_args(
                    config@.feh_arg,
                    (#[trigger] config@.categories[i]).paths,
                ),
            Err(SelectError::NoCategoriesAvailable) => config.categories.len() == 0,
        },
{
    match choose_category(&config.categories) {
        Some(category) => {
            proof {
                let i = choose|i: int|
                    0 <= i < config.categories.len() && #[trigger] config.categories[i]
                        == *category;
                assert(config@.categories[i] == category@);
            }
            Ok(viewer_arguments(config.feh_arg.as_str(), &category.paths))
        },
        None => Err(SelectError::NoCategoriesAvailable),
    }
}

/// Plans the request `input`, drawing a category at random where the request
/// asks for one. A random pick fails exactly where there is no category, and
/// otherwise shows one of the configured categories; every other request is
/// planned without a draw.
pub fn dispatch(policy: Policy, running: bool, config: &Config, input: &str) -> (outcome: Result<
    Plan,
    SelectError,
>)
    ensures
        match mode_of(input@) {
            ModeView::Random => if config.categories.len() == 0 {
                outcome_view(outcome) == Err::<PlanView, SelectError>(
                    SelectError::NoCategoriesAvailable,
                )
            } else {
                exists|i: int|
                    0 <= i < config@.categories.len() && outcome_view(outcome) == planned(
                        policy,
                        running,
                        config@,
                        ModeView::Random,
                        Some(#[trigger] config@.categories[i]),
                    )
            },
            mode => outcome_view(outcome) == planned(policy, running, config@, mode, None),
        },
{
    let mode = Mode::parse(input);
    let picked = match mode {
        Mode::Random => choose_category(&config.categories),
        _ => None,
    };
    proof {
        if let Some(category) = picked {
            let i = choose|i: int|
                0 <= i < config.categories.len() && #[trigger] config.categories[i]
                    == *category;
            assert(config@.categories[i] == category@);
        }
    }
    plan(policy, running, config, &mode, picked)
}

/// What went wrong while a request was served.
#[derive(Clone, Copy, Debug, PartialEq, Eq)]
pub enum Failure {
    /// The configuration could not be loaded.
    Load,
    /// A random pick was asked for and there is no category.
    NoCategories,
    /// The viewer could not be started.
    Spawn,
    /// The previous viewer could not be terminated.
    Termination,
}

/// How the run goes on after a failure.
#[derive(Clone, Copy, Debug, PartialEq, Eq)]
pub enum Reaction {
    /// Report the failure and end the run with a failing status.
    Abort,
    /// Report the failure, give up the request and read the next one.
    NextRequest,
    /// Report the failure and go on with the steps that are left.
    Continue,
}

/// A viewer that cannot be terminated is reported and the work goes on. Any
/// other failure ends the request: the whole run under the one-shot policy,
/// the current request only under the persistent policy.
pub open spec fn reaction_to(policy: Policy, failure: Failure) -> Reaction {
    match failure {
        Failure::Termination => Reaction::Continue,
        _ => match policy {
            Policy::OneShot => Reaction::Abort,
            Policy::PersistentReplace => Reaction::NextRequest,
        },
    }
}

/// Decides how the run goes on after `failure`.
pub fn reaction(policy: Policy, failure: Failure) -> (r: Reaction)
    ensures
        r == reaction_to(policy, failure),
{
    match failure {
        Failure::Termination => Reaction::Continue,
        _ => match policy {
            Policy::OneShot => Reaction::Abort,
            Policy::PersistentReplace => Reaction::NextRequest,
        },
    }
}

/// The number of viewers alive after the first `n` of `steps`, where one was
/// alive before them exactly if `running`.
pub open spec fn viewers_after(steps: Seq<StepView>, running: bool, n: int) -> int
    decreases n,
{
    if n <= 0 {
        if running {
            1
        } else {
            0
        }
    } else {
        let before = viewers_after(steps, running, n - 1);
        match steps[n - 1] {
            StepView::Spawn(_) => before + 1,
            StepView::Terminate => before - 1,
            _ => before,
        }
    }
}

/// Whitespace around a request does not change what it asks for.
pub proof fn lemma_request_ignores_padding(before: Seq<char>, request: Seq<char>, after: Seq<char>)
    requires
        all_whitespace(before),
        all_whitespace(after),
    ensures
        mode_of(before + request + after) == mode_of(request),
{
    lemma_trimmed_ignores_padding(before, request, after);
}

/// A name that no category has is answered by a warning alone: nothing is
/// terminated, nothing is started, and a running viewer stays.
pub proof fn lemma_unknown_name_changes_nothing(
    policy: Policy,
    running: bool,
    config: ConfigView,
    name: Seq<char>,
    picked: Option<CategoryView>,
)
    requires
        forall|k: int|
            0 <= k < config.categories.len() ==> (#[trigger] config.categories[k]).name != name,
    ensures
        planned(policy, running, config, ModeView::Named(name), picked) == Ok::<
            PlanView,
            SelectError,
        >(PlanView { steps: seq![StepView::WarnUnknownCategory], running }),
{
    crate::config::lemma_first_named_from(config.categories, name, 0);
}

/// A listing touches no viewer, and it prints every name at the place that
/// its category has in the configuration: nothing is reordered and no
/// repeated name is dropped.
pub proof fn lemma_query_lists_declared_order(
    policy: Policy,
    running: bool,
    config: ConfigView,
    picked: Option<CategoryView>,
)
    ensures
        planned(policy, running, config, ModeView::Query, picked) == Ok::<PlanView, SelectError>(
            PlanView { steps: seq![StepView::Print(listing(policy, config.categories))], running },
        ),
        listing(policy, config.categories).len() >= config.categories.len(),
        forall|i: int|
            0 <= i < config.categories.len() ==> listing(policy, config.categories)[i]
                == (#[trigger] config.categories[i]).name,
{
}

/// At no point of a plan are two viewers alive, and the plan says truly
/// whether one is alive at its end. Under the one-shot policy no viewer is
/// alive at the start.
pub proof fn lemma_one_viewer_at_a_time(
    policy: Policy,
    running: bool,
    config: ConfigView,
    mode: ModeView,
    picked: Option<CategoryView>,
    n: int,
)
    requires
        policy is OneShot ==> !running,
        planned(policy, running, config, mode, picked) is Ok,
        0 <= n <= planned(policy, running, config, mode, picked).unwrap().steps.len(),
    ensures
        ({
            let plan = planned(policy, running, config, mode, picked).unwrap();
            &&& 0 <= viewers_after(plan.steps, running, n) <= 1
            &&& viewers_after(plan.steps, running, plan.steps.len() as int) == if plan.running {
                1int
            } else {
                0int
            }
        }),
{
    reveal_with_fuel(viewers_after, 5);
}

} // verus!
