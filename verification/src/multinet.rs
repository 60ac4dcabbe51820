use vstd::prelude::*;

verus! {

/// How long the command recogniser listens for a command, in milliseconds.
pub const COMMAND_DURATION_MS: i32 = 6000;

/// The identifier of the one speech command.
pub const COMMAND_ID: i32 = 1;

/// The phrase of the one speech command, in pinyin.
pub const COMMAND_PHRASE: &'static str = "wo you ge wen ti";

/// Why a method of a C interface table cannot be called, if it cannot: the
/// table pointer is null, or the table has no such method.
pub open spec fn call_error_text(table_is_null: bool, has_method: bool, method: Seq<char>) -> Option<
    Seq<char>,
> {
    if table_is_null {
        Some("Null pointer provided to "@ + method)
    } else if !has_method {
        Some("Failed to call method "@ + method)
    } else {
        None
    }
}

/// Checks that a method of a C interface table can be called: the table
/// pointer must not be null and the method must be present. On failure the
/// error message names the method.
pub fn check_c_method(table_is_null: bool, has_method: bool, method: &str) -> (r: Result<(), String>)
    ensures
        match call_error_text(table_is_null, has_method, method@) {
            Some(m) => r matches Err(e) && e@ == m,
            None => r is Ok,
        },
{
    if table_is_null {
        let mut e = String::from_str("Null pointer provided to ");
        e.append(method);
        Err(e)
    } else if !has_method {
        let mut e = String::from_str("Failed to call method ");
        e.append(method);
        Err(e)
    } else {
        Ok(())
    }
}

/// The step of setting up the command recogniser that is awaited.
#[derive(Clone, Copy, PartialEq, Eq, Structural, Debug)]
pub enum SetupStage {
    /// Loading the speech models.
    LoadModels,
    /// Making the front-end configuration.
    InitConfig,
    /// Making the front-end interface from the configuration.
    CreateHandle,
    /// Looking up the method that makes the front end's data.
    CreateData,
    /// Choosing the command model among the loaded models.
    FilterModel,
    /// Getting the command recogniser's interface.
    GetMultinet,
    /// Looking up the method that makes the recogniser's model data.
    CreateModel,
    /// Set up.
    Ready,
    /// Given up.
    Failed,
}

/// What became of the front-end configuration.
#[derive(Clone, Copy, PartialEq, Eq, Structural, Debug)]
pub enum ConfigState {
    NotMade,
    Live,
    Freed,
}

/// What the step that was awaited reported.
#[derive(Clone, Copy, PartialEq, Eq, Structural, Debug)]
pub enum SetupEvent {
    /// A call that makes something returned a pointer, null or not.
    Made { is_null: bool },
    /// A method was looked up in an interface table.
    Lookup { table_is_null: bool, has_method: bool },
}

/// Something the set-up does at its edge.
#[derive(Debug, PartialEq, Eq)]
pub enum SetupAction {
    /// Load the speech models from the partition that
    /// `command_init_request` names.
    LoadModels,
    /// Make the front-end configuration for the loaded models, as
    /// `command_init_request` says.
    InitConfig,
    /// Log the front-end configuration.
    PrintConfig,
    /// Make the front-end interface from the configuration.
    CreateHandle,
    /// Look up the front end's `create_from_config` method.
    LookupCreateData,
    /// Call it with the configuration; keep the front end's data.
    CreateData,
    /// Free the front-end configuration.
    FreeConfig,
    /// Choose the command model among the loaded models.
    FilterModel,
    /// Get the command recogniser's interface for the chosen model.
    GetMultinet,
    /// Look up the recogniser's `create` method.
    LookupCreateModel,
    /// Call it with the chosen model and [`COMMAND_DURATION_MS`].
    CreateModel,
    /// Clear the speech commands.
    ClearCommands,
    /// Add a speech command with this identifier and phrase.
    AddCommand(i32, String),
    /// Make the added commands take effect.
    UpdateCommands,
    /// Log the text at the error level.
    LogError(String),
    /// Give up with an error of this text.
    Fail(String),
    /// The recogniser is set up.
    Succeed,
}

/// The mathematical content of a [`SetupAction`].
pub enum SetupActionView {
    LoadModels,
    InitConfig,
    PrintConfig,
    CreateHandle,
    LookupCreateData,
    CreateData,
    FreeConfig,
    FilterModel,
    GetMultinet,
    LookupCreateModel,
    CreateModel,
    ClearCommands,
    AddCommand(i32, Seq<char>),
    UpdateCommands,
    LogError(Seq<char>),
    Fail(Seq<char>),
    Succeed,
}

impl View for SetupAction {
    type V = SetupActionView;

    open spec fn view(&self) -> SetupActionView {
        match self {
            SetupAction::LoadModels => SetupActionView::LoadModels,
            SetupAction::InitConfig => SetupActionView::InitConfig,
            SetupAction::PrintConfig => SetupActionView::PrintConfig,
            SetupAction::CreateHandle => SetupActionView::CreateHandle,
            SetupAction::LookupCreateData => SetupActionView::LookupCreateData,
            SetupAction::CreateData => SetupActionView::CreateData,
            SetupAction::FreeConfig => SetupActionView::FreeConfig,
            SetupAction::FilterModel => SetupActionView::FilterModel,
            SetupAction::GetMultinet => SetupActionView::GetMultinet,
            SetupAction::LookupCreateModel => SetupActionView::LookupCreateModel,
            SetupAction::CreateModel => SetupActionView::CreateModel,
            SetupAction::ClearCommands => SetupActionView::ClearCommands,
            SetupAction::AddCommand(id, p) => SetupActionView::AddCommand(*id, p@),
            SetupAction::UpdateCommands => SetupActionView::UpdateCommands,
            SetupAction::LogError(s) => SetupActionView::LogError(s@),
            SetupAction::Fail(s) => SetupActionView::Fail(s@),
            SetupAction::Succeed => SetupActionView::Succeed,
        }
    }
}

/// The views of a list of set-up actions.
pub open spec fn setup_views(actions: Seq<SetupAction>) -> Seq<SetupActionView> {
    actions.map_values(|a: SetupAction| a@)
}

/// The state of the set-up: the step awaited and the configuration's fate.
pub struct SetupState {
    pub stage: SetupStage,
    pub config: ConfigState,
}

/// Giving up without touching the configuration: log the message and fail
/// with it.
pub open spec fn give_up(s: SetupState, message: Seq<char>) -> (SetupState, Seq<SetupActionView>) {
    (
        SetupState { stage: SetupStage::Failed, ..s },
        seq![SetupActionView::LogError(message), SetupActionView::Fail(message)],
    )
}

/// The state and actions with which the set-up starts.
pub open spec fn setup_start() -> (SetupState, Seq<SetupActionView>) {
    (
        SetupState { stage: SetupStage::LoadModels, config: ConfigState::NotMade },
        seq![SetupActionView::LoadModels],
    )
}

/// One step of the set-up: what the awaited step reported decides the next
/// step, or the error with which the set-up gives up, freeing the
/// configuration where it is live. A report of the wrong kind, and any
/// report once the set-up has ended, is ignored.
pub open spec fn setup_step(s: SetupState, e: SetupEvent) -> (SetupState, Seq<SetupActionView>) {
    match (s.stage, e) {
        (SetupStage::LoadModels, SetupEvent::Made { is_null }) => if is_null {
            give_up(s, "Failed to initialize speech recognition models"@)
        } else {
            (SetupState { stage: SetupStage::InitConfig, ..s }, seq![SetupActionView::InitConfig])
        },
        (SetupStage::InitConfig, SetupEvent::Made { is_null }) => if is_null {
            give_up(s, "Failed to initialize AFE configuration"@)
        } else {
            (
                SetupState { stage: SetupStage::CreateHandle, config: ConfigState::Live },
                seq![SetupActionView::PrintConfig, SetupActionView::CreateHandle],
            )
        },
        (SetupStage::CreateHandle, SetupEvent::Made { is_null }) => if is_null {
            (
                SetupState { stage: SetupStage::Failed, config: ConfigState::Freed },
                seq![
                    SetupActionView::LogError("Failed to create AFE handle from config"@),
                    SetupActionView::FreeConfig,
                    SetupActionView::Fail("Failed to create AFE handle"@),
                ],
            )
        } else {
            (
                SetupState { stage: SetupStage::CreateData, ..s },
                seq![SetupActionView::LookupCreateData],
            )
        },
        (SetupStage::CreateData, SetupEvent::Lookup { table_is_null, has_method }) => match call_error_text(
            table_is_null,
            has_method,
            "create_from_config"@,
        ) {
            Some(m) => (
                SetupState { stage: SetupStage::Failed, config: ConfigState::Freed },
                seq![
                    SetupActionView::LogError("Failed to create AFE data: "@ + m),
                    SetupActionView::FreeConfig,
                    SetupActionView::Fail(m),
                ],
            ),
            None => (
                SetupState { stage: SetupStage::FilterModel, config: ConfigState::Freed },
                seq![
                    SetupActionView::CreateData,
                    SetupActionView::FreeConfig,
                    SetupActionView::FilterModel,
                ],
            ),
        },
        (SetupStage::FilterModel, SetupEvent::Made { is_null }) => if is_null {
            give_up(s, "Failed to filter speech recognition model"@)
        } else {
            (SetupState { stage: SetupStage::GetMultinet, ..s }, seq![SetupActionView::GetMultinet])
        },
        (SetupStage::GetMultinet, SetupEvent::Made { is_null }) => if is_null {
            give_up(s, "Failed to get multinet handle"@)
        } else {
            (
                SetupState { stage: SetupStage::CreateModel, ..s },
                seq![SetupActionView::LookupCreateModel],
            )
        },
        (SetupStage::CreateModel, SetupEvent::Lookup { table_is_null, has_method }) => match call_error_text(
            table_is_null,
            has_method,
            "create"@,
        ) {
            Some(m) => give_up(s, "Failed to create model data: "@ + m),
            None => (
                SetupState { stage: SetupStage::Ready, ..s },
                seq![
                    SetupActionView::CreateModel,
                    SetupActionView::ClearCommands,
                    SetupActionView::AddCommand(COMMAND_ID, COMMAND_PHRASE@),
                    SetupActionView::UpdateCommands,
                    SetupActionView::Succeed,
                ],
            ),
        },
        _ => (s, Seq::empty()),
    }
}

/// The set-up of the command recogniser: the front end for it, its model
/// and its one speech command.
pub struct MultiNetSetup {
    stage: SetupStage,
    config: ConfigState,
}

impl View for MultiNetSetup {
    type V = SetupState;

    closed spec fn view(&self) -> SetupState {
        SetupState { stage: self.stage, config: self.config }
    }
}

fn push_setup(actions: &mut Vec<SetupAction>, a: SetupAction)
    ensures
        setup_views(final(actions)@) == setup_views(old(actions)@).push(a@),
{
    let ghost before = actions@;
    actions.push(a);
    assert(setup_views(actions@) =~= setup_views(before).push(a@));
}

fn push_give_up(actions: &mut Vec<SetupAction>, message: String)
    ensures
        setup_views(final(actions)@) == setup_views(old(actions)@) + seq![
            SetupActionView::LogError(message@),
            SetupActionView::Fail(message@),
        ],
{
    let ghost before = setup_views(actions@);
    let copy = message.clone();
    push_setup(actions, SetupAction::LogError(message));
    push_setup(actions, SetupAction::Fail(copy));
    assert(setup_views(actions@) =~= before + seq![
        SetupActionView::LogError(copy@),
        SetupActionView::Fail(copy@),
    ]);
}

impl MultiNetSetup {
    /// Starts the set-up: the first step loads the models.
    pub fn start() -> (r: (Self, Vec<SetupAction>))
        ensures
            (r.0@, setup_views(r.1@)) == setup_start(),
    {
        let mut actions: Vec<SetupAction> = Vec::new();
        push_setup(&mut actions, SetupAction::LoadModels);
        assert(setup_views(actions@) =~= setup_start().1);
        (MultiNetSetup { stage: SetupStage::LoadModels, config: ConfigState::NotMade }, actions)
    }

    /// The step awaited.
    pub fn stage(&self) -> (s: SetupStage)
        ensures
            s == self@.stage,
    {
        self.stage
    }

    /// Takes the report of the awaited step and gives the next actions.
    pub fn on_event(&mut self, e: SetupEvent) -> (actions: Vec<SetupAction>)
        ensures
            (final(self)@, setup_views(actions@)) == setup_step(old(self)@, e),
    {
        let mut actions: Vec<SetupAction> = Vec::new();
        match (self.stage, e) {
            (SetupStage::LoadModels, SetupEvent::Made { is_null }) => {
                if is_null {
                    push_give_up(
                        &mut actions,
                        String::from_str("Failed to initialize speech recognition models"),
                    );
                    self.stage = SetupStage::Failed;
                } else {
                    push_setup(&mut actions, SetupAction::InitConfig);
                    self.stage = SetupStage::InitConfig;
                }
            },
            (SetupStage::InitConfig, SetupEvent::Made { is_null }) => {
                if is_null {
                    push_give_up(
                        &mut actions,
                        String::from_str("Failed to initialize AFE configuration"),
                    );
                    self.stage = SetupStage::Failed;
                } else {
                    push_setup(&mut actions, SetupAction::PrintConfig);
                    push_setup(&mut actions, SetupAction::CreateHandle);
                    self.stage = SetupStage::CreateHandle;
                    self.config = ConfigState::Live;
                }
            },
            (SetupStage::CreateHandle, SetupEvent::Made { is_null }) => {
                if is_null {
                    push_setup(
                        &mut actions,
                        SetupAction::LogError(
                            String::from_str("Failed to create AFE handle from config"),
                        ),
                    );
                    push_setup(&mut actions, SetupAction::FreeConfig);
                    push_setup(
                        &mut actions,
                        SetupAction::Fail(String::from_str("Failed to create AFE handle")),
                    );
                    self.stage = SetupStage::Failed;
                    self.config = ConfigState::Freed;
                } else {
                    push_setup(&mut actions, SetupAction::LookupCreateData);
                    self.stage = SetupStage::CreateData;
                }
            },
            (SetupStage::CreateData, SetupEvent::Lookup { table_is_null, has_method }) => {
                match check_c_method(table_is_null, has_method, "create_from_config") {
                    Err(m) => {
                        let mut log = String::from_str("Failed to create AFE data: ");
                        log.append(m.as_str());
                        push_setup(&mut actions, SetupAction::LogError(log));
                        push_setup(&mut actions, SetupAction::FreeConfig);
                        push_setup(&mut actions, SetupAction::Fail(m));
                        self.stage = SetupStage::Failed;
                    },
                    Ok(()) => {
                        push_setup(&mut actions, SetupAction::CreateData);
                        push_setup(&mut actions, SetupAction::FreeConfig);
                        push_setup(&mut actions, SetupAction::FilterModel);
                        self.stage = SetupStage::FilterModel;
                    },
                }
                self.config = ConfigState::Freed;
            },
            (SetupStage::FilterModel, SetupEvent::Made { is_null }) => {
                if is_null {
                    push_give_up(
                        &mut actions,
                        String::from_str("Failed to filter speech recognition model"),
                    );
                    self.stage = SetupStage::Failed;
                } else {
                    push_setup(&mut actions, SetupAction::GetMultinet);
                    self.stage = SetupStage::GetMultinet;
                }
            },
            (SetupStage::GetMultinet, SetupEvent::Made { is_null }) => {
                if is_null {
                    push_give_up(&mut actions, String::from_str("Failed to get multinet handle"));
                    self.stage = SetupStage::Failed;
                } else {
                    push_setup(&mut actions, SetupAction::LookupCreateModel);
                    self.stage = SetupStage::CreateModel;
                }
            },
            (SetupStage::CreateModel, SetupEvent::Lookup { table_is_null, has_method }) => {
                match check_c_method(table_is_null, has_method, "create") {
                    Err(m) => {
                        let mut msg = String::from_str("Failed to create model data: ");
                        msg.append(m.as_str());
                        push_give_up(&mut actions, msg);
                        self.stage = SetupStage::Failed;
                    },
                    Ok(()) => {
                        push_setup(&mut actions, SetupAction::CreateModel);
                        push_setup(&mut actions, SetupAction::ClearCommands);
                        push_setup(
                            &mut actions,
                            SetupAction::AddCommand(COMMAND_ID, String::from_str(COMMAND_PHRASE)),
                        );
                        push_setup(&mut actions, SetupAction::UpdateCommands);
                        push_setup(&mut actions, SetupAction::Succeed);
                        self.stage = SetupStage::Ready;
                    },
                }
            },
            _ => {},
        }
        assert(setup_views(actions@) =~= setup_step(old(self)@, e).1);
        actions
    }
}


// ----------------------------------------------------------------------
// Laws of the set-up.
// ----------------------------------------------------------------------

/// The state and all actions after the set-up has taken the reports `es`,
/// in order.
pub open spec fn setup_run(es: Seq<SetupEvent>) -> (SetupState, Seq<SetupActionView>)
    decreases es.len(),
{
    if es.len() == 0 {
        setup_start()
    } else {
        let prev = setup_run(es.drop_last());
        let next = setup_step(prev.0, es.last());
        (next.0, prev.1 + next.1)
    }
}

/// How many actions of a list satisfy `f`.
pub open spec fn count_actions(acts: Seq<SetupActionView>, f: spec_fn(SetupActionView) -> bool) -> nat
    decreases acts.len(),
{
    if acts.len() == 0 {
        0
    } else {
        count_actions(acts.drop_last(), f) + if f(acts.last()) {
            1nat
        } else {
            0nat
        }
    }
}

/// Whether an action frees the configuration.
pub open spec fn is_free(a: SetupActionView) -> bool {
    a is FreeConfig
}

/// Whether an action ends the set-up with a verdict.
pub open spec fn is_verdict(a: SetupActionView) -> bool {
    a is Succeed || a is Fail
}

/// Whether the set-up has ended.
pub open spec fn has_ended(s: SetupState) -> bool {
    s.stage == SetupStage::Ready || s.stage == SetupStage::Failed
}

/// What the configuration's fate is at each step.
pub open spec fn setup_inv(s: SetupState) -> bool {
    match s.stage {
        SetupStage::LoadModels | SetupStage::InitConfig => s.config == ConfigState::NotMade,
        SetupStage::CreateHandle | SetupStage::CreateData => s.config == ConfigState::Live,
        SetupStage::Failed => s.config != ConfigState::Live,
        _ => s.config == ConfigState::Freed,
    }
}

proof fn lemma_count_concat(
    a: Seq<SetupActionView>,
    b: Seq<SetupActionView>,
    f: spec_fn(SetupActionView) -> bool,
)
    ensures
        count_actions(a + b, f) == count_actions(a, f) + count_actions(b, f),
    decreases b.len(),
{
    if b.len() == 0 {
        assert(a + b =~= a);
    } else {
        lemma_count_concat(a, b.drop_last(), f);
        assert((a + b).drop_last() =~= a + b.drop_last());
    }
}

proof fn lemma_step_counts(s: SetupState, e: SetupEvent)
    requires
        setup_inv(s),
    ensures
        ({
            let n = setup_step(s, e);
            &&& setup_inv(n.0)
            &&& count_actions(n.1, |a: SetupActionView| is_free(a)) == if s.config
                == ConfigState::Live && n.0.config == ConfigState::Freed {
                1nat
            } else {
                0nat
            }
            &&& count_actions(n.1, |a: SetupActionView| is_verdict(a)) == if !has_ended(s)
                && has_ended(n.0) {
                1nat
            } else {
                0nat
            }
            &&& has_ended(n.0) && !has_ended(s) ==> is_verdict(n.1.last())
            &&& has_ended(s) ==> n == (s, Seq::<SetupActionView>::empty())
        }),
{
    let n = setup_step(s, e);
    let acts = n.1;
    reveal_with_fuel(count_actions, 6);
    if acts.len() > 0 {
        assert(acts.drop_last().len() < 6);
    }
}

/// The front-end configuration is freed exactly once if it was made and
/// never if it was not, and it is never left live when the set-up ends,
/// whether it succeeds or fails. Each run ends with exactly one verdict,
/// success or failure, which is its last action; once it has ended, further
/// reports change nothing.
pub proof fn law_setup_frees_config_once(es: Seq<SetupEvent>)
    ensures
        ({
            let r = setup_run(es);
            &&& setup_inv(r.0)
            &&& count_actions(r.1, |a: SetupActionView| is_free(a)) == if r.0.config
                == ConfigState::Freed {
                1nat
            } else {
                0nat
            }
            &&& has_ended(r.0) ==> r.0.config != ConfigState::Live
            &&& count_actions(r.1, |a: SetupActionView| is_verdict(a)) == if has_ended(r.0) {
                1nat
            } else {
                0nat
            }
            &&& has_ended(r.0) ==> is_verdict(r.1.last())
        }),
    decreases es.len(),
{
    let r = setup_run(es);
    if es.len() == 0 {
        reveal_with_fuel(count_actions, 2);
    } else {
        let init = es.drop_last();
        law_setup_frees_config_once(init);
        let prev = setup_run(init);
        let next = setup_step(prev.0, es.last());
        lemma_step_counts(prev.0, es.last());
        lemma_count_concat(prev.1, next.1, |a: SetupActionView| is_free(a));
        lemma_count_concat(prev.1, next.1, |a: SetupActionView| is_verdict(a));
        if has_ended(prev.0) {
            assert(prev.1 + next.1 =~= prev.1);
        } else if has_ended(next.0) {
            assert((prev.1 + next.1).last() == next.1.last());
        }
    }
}


/// Whether an action hands the front-end configuration to an outside call.
pub open spec fn uses_config(a: SetupActionView) -> bool {
    a is PrintConfig || a is CreateHandle || a is CreateData || a is FreeConfig
}

/// Whether the configuration has been freed once the first `n` actions are
/// done, starting from `init`.
pub open spec fn freed_after(acts: Seq<SetupActionView>, n: int, init: bool) -> bool
    decreases n,
{
    if n <= 0 {
        init
    } else {
        freed_after(acts, n - 1, init) || acts[n - 1] is FreeConfig
    }
}

/// Whether none of the first `n` actions uses the configuration once it has
/// been freed, starting from `init`.
pub open spec fn no_use_after_free_upto(acts: Seq<SetupActionView>, n: int, init: bool) -> bool
    decreases n,
{
    if n <= 0 {
        true
    } else {
        no_use_after_free_upto(acts, n - 1, init) && (uses_config(acts[n - 1]) ==> !freed_after(
            acts,
            n - 1,
            init,
        ))
    }
}

/// Whether, in the reports `es`, the step that makes the configuration was
/// answered with a configuration (a non-null pointer).
pub open spec fn config_made(es: Seq<SetupEvent>) -> bool {
    exists|k: int|
        #![trigger es.take(k)]
        0 <= k < es.len() && setup_run(es.take(k)).0.stage == SetupStage::InitConfig && es[k]
            == (SetupEvent::Made { is_null: false })
}

proof fn lemma_freed_prefix(a: Seq<SetupActionView>, b: Seq<SetupActionView>, n: int, init: bool)
    requires
        0 <= n <= a.len(),
    ensures
        freed_after(a + b, n, init) == freed_after(a, n, init),
        no_use_after_free_upto(a + b, n, init) == no_use_after_free_upto(a, n, init),
    decreases n,
{
    if n > 0 {
        lemma_freed_prefix(a, b, n - 1, init);
        assert((a + b)[n - 1] == a[n - 1]);
    }
}

proof fn lemma_freed_suffix(a: Seq<SetupActionView>, b: Seq<SetupActionView>, m: int, init: bool)
    requires
        0 <= m <= b.len(),
    ensures
        freed_after(a + b, a.len() + m, init) == freed_after(b, m, freed_after(a, a.len() as int, init)),
        no_use_after_free_upto(a + b, a.len() + m, init) == (no_use_after_free_upto(
            a,
            a.len() as int,
            init,
        ) && no_use_after_free_upto(b, m, freed_after(a, a.len() as int, init))),
    decreases m,
{
    if m == 0 {
        lemma_freed_prefix(a, b, a.len() as int, init);
    } else {
        lemma_freed_suffix(a, b, m - 1, init);
        assert((a + b)[a.len() + m - 1] == b[m - 1]);
    }
}

proof fn lemma_step_frees(s: SetupState, e: SetupEvent)
    requires
        setup_inv(s),
    ensures
        ({
            let n = setup_step(s, e);
            let freed = s.config == ConfigState::Freed;
            &&& no_use_after_free_upto(n.1, n.1.len() as int, freed)
            &&& freed_after(n.1, n.1.len() as int, freed) == (n.0.config == ConfigState::Freed)
            &&& (s.config == ConfigState::NotMade && n.0.config != ConfigState::NotMade) <==> (
            s.stage == SetupStage::InitConfig && e == (SetupEvent::Made { is_null: false }))
            &&& s.config != ConfigState::NotMade ==> n.0.config != ConfigState::NotMade
        }),
{
    reveal_with_fuel(freed_after, 6);
    reveal_with_fuel(no_use_after_free_upto, 6);
}

proof fn lemma_config_made_step(es: Seq<SetupEvent>)
    requires
        es.len() > 0,
    ensures
        config_made(es) <==> (config_made(es.drop_last()) || (setup_run(es.drop_last()).0.stage
            == SetupStage::InitConfig && es.last() == (SetupEvent::Made { is_null: false }))),
{
    let init = es.drop_last();
    if config_made(es) {
        let k = choose|k: int|
            #![trigger es.take(k)]
            0 <= k < es.len() && setup_run(es.take(k)).0.stage == SetupStage::InitConfig && es[k]
                == (SetupEvent::Made { is_null: false });
        if k < init.len() {
            assert(es.take(k) =~= init.take(k));
            assert(init[k] == es[k]);
        } else {
            assert(es.take(k) =~= init);
        }
    }
    if config_made(init) {
        let k = choose|k: int|
            #![trigger init.take(k)]
            0 <= k < init.len() && setup_run(init.take(k)).0.stage == SetupStage::InitConfig
                && init[k] == (SetupEvent::Made { is_null: false });
        assert(es.take(k) =~= init.take(k));
        assert(init[k] == es[k]);
    }
    if setup_run(init).0.stage == SetupStage::InitConfig && es.last() == (SetupEvent::Made {
        is_null: false,
    }) {
        let k = es.len() - 1;
        assert(es.take(k) =~= init);
    }
}

proof fn lemma_run_frees(es: Seq<SetupEvent>)
    ensures
        ({
            let r = setup_run(es);
            &&& setup_inv(r.0)
            &&& no_use_after_free_upto(r.1, r.1.len() as int, false)
            &&& freed_after(r.1, r.1.len() as int, false) == (r.0.config == ConfigState::Freed)
            &&& (r.0.config != ConfigState::NotMade <==> config_made(es))
        }),
    decreases es.len(),
{
    if es.len() == 0 {
        reveal_with_fuel(freed_after, 2);
        reveal_with_fuel(no_use_after_free_upto, 2);
    } else {
        let init = es.drop_last();
        lemma_run_frees(init);
        let prev = setup_run(init);
        let next = setup_step(prev.0, es.last());
        lemma_step_counts(prev.0, es.last());
        lemma_step_frees(prev.0, es.last());
        lemma_freed_suffix(prev.1, next.1, next.1.len() as int, false);
        lemma_config_made_step(es);
    }
}

proof fn lemma_freed_means_free_before(acts: Seq<SetupActionView>, i: int, j: int, init: bool)
    requires
        0 <= i < j <= acts.len(),
        acts[i] is FreeConfig,
    ensures
        freed_after(acts, j, init),
    decreases j,
{
    if j > i + 1 {
        lemma_freed_means_free_before(acts, i, j - 1, init);
    }
}

proof fn lemma_no_use_at(acts: Seq<SetupActionView>, n: int, j: int, init: bool)
    requires
        0 <= j < n <= acts.len(),
        no_use_after_free_upto(acts, n, init),
    ensures
        uses_config(acts[j]) ==> !freed_after(acts, j, init),
    decreases n,
{
    if j < n - 1 {
        lemma_no_use_at(acts, n - 1, j, init);
    }
}

/// The front-end configuration's lifetime. It is freed (once, as the law
/// above says) exactly when the step that makes it was answered with a
/// configuration and the set-up has moved past the calls that use it; so a
/// set-up that ends has freed it if and only if it was made. No action
/// after the one that frees it hands it to an outside call again: not the
/// printing, not the making of the interface or of the front end's data,
/// and not a second free.
pub proof fn law_setup_config_lifetime(es: Seq<SetupEvent>)
    ensures
        ({
            let r = setup_run(es);
            &&& count_actions(r.1, |a: SetupActionView| is_free(a)) <= 1
            &&& count_actions(r.1, |a: SetupActionView| is_free(a)) == 1 ==> config_made(es)
            &&& !config_made(es) ==> count_actions(r.1, |a: SetupActionView| is_free(a)) == 0
            &&& has_ended(r.0) ==> (count_actions(r.1, |a: SetupActionView| is_free(a)) == 1
                <==> config_made(es))
            &&& forall|i: int, j: int|
                0 <= i < j < r.1.len() && (#[trigger] r.1[i]) is FreeConfig ==> !uses_config(
                    #[trigger] r.1[j],
                )
        }),
{
    let r = setup_run(es);
    law_setup_frees_config_once(es);
    lemma_run_frees(es);
    assert forall|i: int, j: int|
        0 <= i < j < r.1.len() && (#[trigger] r.1[i]) is FreeConfig implies !uses_config(
            #[trigger] r.1[j],
        ) by {
        lemma_freed_means_free_before(r.1, i, j, false);
        lemma_no_use_at(r.1, r.1.len() as int, j, false);
    }
}


/// Every step's verdict and stage agree: a step that gives up (any `Fail`
/// among its actions) leaves the set-up failed, a step that succeeds (any
/// `Succeed`) leaves it ready, and a step that ends the set-up ends its
/// actions with that verdict. A step that does not end the set-up gives no
/// verdict.
pub proof fn law_setup_verdict_step(s: SetupState, e: SetupEvent)
    ensures
        ({
            let n = setup_step(s, e);
            &&& (exists|i: int| 0 <= i < n.1.len() && (#[trigger] n.1[i]) is Fail) ==> n.0.stage
                == SetupStage::Failed
            &&& (exists|i: int| 0 <= i < n.1.len() && (#[trigger] n.1[i]) is Succeed) ==> n.0.stage
                == SetupStage::Ready
            &&& n.0.stage == SetupStage::Ready && s.stage != SetupStage::Ready ==> n.1.len() > 0
                && n.1.last() is Succeed
            &&& n.0.stage == SetupStage::Failed && s.stage != SetupStage::Failed ==> n.1.len() > 0
                && n.1.last() is Fail
            &&& !has_ended(n.0) ==> forall|i: int|
                0 <= i < n.1.len() ==> !is_verdict(#[trigger] n.1[i])
        }),
{
}

/// Over any run, the set-up is ready if and only if it has ended and its
/// last action is `Succeed`, and failed if and only if it has ended and its
/// last action is `Fail`. In particular a missing interface (a null handle)
/// leaves it failed, never ready.
pub proof fn law_setup_verdict(es: Seq<SetupEvent>)
    ensures
        ({
            let r = setup_run(es);
            &&& r.0.stage == SetupStage::Ready <==> (has_ended(r.0) && r.1.len() > 0
                && r.1.last() is Succeed)
            &&& r.0.stage == SetupStage::Failed <==> (has_ended(r.0) && r.1.len() > 0
                && r.1.last() is Fail)
        }),
    decreases es.len(),
{
    if es.len() > 0 {
        let init = es.drop_last();
        law_setup_verdict(init);
        let prev = setup_run(init);
        let next = setup_step(prev.0, es.last());
        law_setup_verdict_step(prev.0, es.last());
        if has_ended(prev.0) {
            assert(next == (prev.0, Seq::<SetupActionView>::empty()));
            assert(prev.1 + next.1 =~= prev.1);
        } else if has_ended(next.0) {
            assert((prev.1 + next.1).last() == next.1.last());
        }
    }
}


/// A method can be called exactly when its table is there and has it; a
/// missing table is reported first, and either message names the method.
pub proof fn law_call_error(table_is_null: bool, has_method: bool, method: Seq<char>)
    ensures
        call_error_text(table_is_null, has_method, method) is None <==> (!table_is_null
            && has_method),
        table_is_null ==> call_error_text(table_is_null, has_method, method) == Some(
            "Null pointer provided to "@ + method,
        ),
        !table_is_null && !has_method ==> call_error_text(table_is_null, has_method, method)
            == Some("Failed to call method "@ + method),
{
}

/// How each step of the set-up fails, with the original messages: the
/// models, the configuration, the model choice and the recogniser's
/// interface each fail with their own message, logged and returned, without
/// freeing anything; a missing front-end interface logs its message, frees
/// the configuration and fails; a front-end data method that cannot be
/// called logs the reason, frees the configuration and fails with the
/// reason; a model data method that cannot be called fails with the reason
/// after `Failed to create model data: `.
pub proof fn law_setup_failures(s: SetupState, th: bool, hm: bool)
    ensures
        ({
            let m = "Failed to initialize speech recognition models"@;
            s.stage == SetupStage::LoadModels ==> setup_step(s, SetupEvent::Made { is_null: true })
                == (SetupState { stage: SetupStage::Failed, ..s }, seq![
                SetupActionView::LogError(m),
                SetupActionView::Fail(m),
            ])
        }),
        ({
            let m = "Failed to initialize AFE configuration"@;
            s.stage == SetupStage::InitConfig ==> setup_step(s, SetupEvent::Made { is_null: true })
                == (SetupState { stage: SetupStage::Failed, ..s }, seq![
                SetupActionView::LogError(m),
                SetupActionView::Fail(m),
            ])
        }),
        s.stage == SetupStage::CreateHandle ==> setup_step(s, SetupEvent::Made { is_null: true })
            == (SetupState { stage: SetupStage::Failed, config: ConfigState::Freed }, seq![
            SetupActionView::LogError("Failed to create AFE handle from config"@),
            SetupActionView::FreeConfig,
            SetupActionView::Fail("Failed to create AFE handle"@),
        ]),
        ({
            let m = if th {
                "Null pointer provided to "@ + "create_from_config"@
            } else {
                "Failed to call method "@ + "create_from_config"@
            };
            s.stage == SetupStage::CreateData && (th || !hm) ==> setup_step(
                s,
                SetupEvent::Lookup { table_is_null: th, has_method: hm },
            ) == (SetupState { stage: SetupStage::Failed, config: ConfigState::Freed }, seq![
                SetupActionView::LogError("Failed to create AFE data: "@ + m),
                SetupActionView::FreeConfig,
                SetupActionView::Fail(m),
            ])
        }),
        ({
            let m = "Failed to filter speech recognition model"@;
            s.stage == SetupStage::FilterModel ==> setup_step(s, SetupEvent::Made { is_null: true })
                == (SetupState { stage: SetupStage::Failed, ..s }, seq![
                SetupActionView::LogError(m),
                SetupActionView::Fail(m),
            ])
        }),
        ({
            let m = "Failed to get multinet handle"@;
            s.stage == SetupStage::GetMultinet ==> setup_step(s, SetupEvent::Made { is_null: true })
                == (SetupState { stage: SetupStage::Failed, ..s }, seq![
                SetupActionView::LogError(m),
                SetupActionView::Fail(m),
            ])
        }),
        ({
            let m = "Failed to create model data: "@ + (if th {
                "Null pointer provided to "@ + "create"@
            } else {
                "Failed to call method "@ + "create"@
            });
            s.stage == SetupStage::CreateModel && (th || !hm) ==> setup_step(
                s,
                SetupEvent::Lookup { table_is_null: th, has_method: hm },
            ) == (SetupState { stage: SetupStage::Failed, ..s }, seq![
                SetupActionView::LogError(m),
                SetupActionView::Fail(m),
            ])
        }),
{
}

/// The successful path of the set-up, step by step: load the models, make
/// and print the configuration, make the front-end interface, make its data
/// and free the configuration, choose the command model, get the
/// recogniser, make its model data with a 6000 ms duration setting, then
/// replace the commands by command 1, `wo you ge wen ti`, and succeed.
pub proof fn law_setup_success_path(s: SetupState)
    ensures
        setup_start() == (SetupState {
            stage: SetupStage::LoadModels,
            config: ConfigState::NotMade,
        }, seq![SetupActionView::LoadModels]),
        s.stage == SetupStage::LoadModels ==> setup_step(s, SetupEvent::Made { is_null: false })
            == (SetupState { stage: SetupStage::InitConfig, ..s }, seq![
            SetupActionView::InitConfig,
        ]),
        s.stage == SetupStage::InitConfig ==> setup_step(s, SetupEvent::Made { is_null: false })
            == (SetupState { stage: SetupStage::CreateHandle, config: ConfigState::Live }, seq![
            SetupActionView::PrintConfig,
            SetupActionView::CreateHandle,
        ]),
        s.stage == SetupStage::CreateHandle ==> setup_step(s, SetupEvent::Made { is_null: false })
            == (SetupState { stage: SetupStage::CreateData, ..s }, seq![
            SetupActionView::LookupCreateData,
        ]),
        s.stage == SetupStage::CreateData ==> setup_step(
            s,
            SetupEvent::Lookup { table_is_null: false, has_method: true },
        ) == (SetupState { stage: SetupStage::FilterModel, config: ConfigState::Freed }, seq![
            SetupActionView::CreateData,
            SetupActionView::FreeConfig,
            SetupActionView::FilterModel,
        ]),
        s.stage == SetupStage::FilterModel ==> setup_step(s, SetupEvent::Made { is_null: false })
            == (SetupState { stage: SetupStage::GetMultinet, ..s }, seq![
            SetupActionView::GetMultinet,
        ]),
        s.stage == SetupStage::GetMultinet ==> setup_step(s, SetupEvent::Made { is_null: false })
            == (SetupState { stage: SetupStage::CreateModel, ..s }, seq![
            SetupActionView::LookupCreateModel,
        ]),
        s.stage == SetupStage::CreateModel ==> setup_step(
            s,
            SetupEvent::Lookup { table_is_null: false, has_method: true },
        ) == (SetupState { stage: SetupStage::Ready, ..s }, seq![
            SetupActionView::CreateModel,
            SetupActionView::ClearCommands,
            SetupActionView::AddCommand(1, "wo you ge wen ti"@),
            SetupActionView::UpdateCommands,
            SetupActionView::Succeed,
        ]),
        COMMAND_DURATION_MS == 6000,
{
}

} // verus!
